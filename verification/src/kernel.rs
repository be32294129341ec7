//! The kernel's request handling and its consoles: what the service
//! decides for each request, how states travel on the wire, how stored
//! rows are read back, and how the monitor moves its selection.
use crate::agent::{Agent, AgentState, is_clock_reading};
use crate::budget::fresh_budget;
use crate::clock::{uuid_layout_mask, uuid_v4_layout};
use vstd::prelude::*;

verus! {

/// The budget that a spawn request asks for, in micro-dollars and tokens.
#[derive(Clone, Copy, Debug, PartialEq, Eq, Structural)]
pub struct BudgetRequest {
    pub max_cost_micros: u64,
    pub max_tokens: u32,
}

/// The budget of an agent whose spawn request names none: one dollar and
/// 10000 tokens.
pub open spec fn default_budget_request() -> BudgetRequest {
    BudgetRequest { max_cost_micros: 1_000_000, max_tokens: 10000 }
}

/// Spawns an agent for a spawn request and starts it: the result is
/// running, with the requested budget or the default one.
pub fn spawn_agent(name: String, model_id: String, budget: Option<BudgetRequest>) -> (a: Agent)
    ensures
        a.id & uuid_layout_mask() == uuid_v4_layout(),
        is_clock_reading(a.created_at),
        is_clock_reading(a.updated_at),
        a.name == name,
        a.model_id == model_id,
        a.state == AgentState::Running,
        a.budget == ({
            let b = match budget {
                Some(b) => b,
                None => default_budget_request(),
            };
            fresh_budget(b.max_cost_micros, b.max_tokens)
        }),
{
    let b = match budget {
        Some(b) => b,
        None => BudgetRequest { max_cost_micros: 1_000_000, max_tokens: 10000 },
    };
    let mut agent = Agent::new(name, model_id, b.max_cost_micros, b.max_tokens);
    let started = agent.start();
    assert(started is Ok);
    agent
}

/// The number of a state on the wire.
pub open spec fn wire_code_of(s: AgentState) -> i32 {
    match s {
        AgentState::Pending => 0,
        AgentState::Running => 1,
        AgentState::Suspended => 2,
        AgentState::Terminated => 3,
        AgentState::Error => 4,
    }
}

impl AgentState {
    /// The number of the state on the wire.
    pub fn wire_code(&self) -> (c: i32)
        ensures
            c == wire_code_of(*self),
    {
        match self {
            AgentState::Pending => 0,
            AgentState::Running => 1,
            AgentState::Suspended => 2,
            AgentState::Terminated => 3,
            AgentState::Error => 4,
        }
    }
}

/// The label that the command line shows for a state's wire number.
pub open spec fn state_label_of(code: i32) -> Seq<char> {
    if code == 0 {
        "PENDING"@
    } else if code == 1 {
        "RUNNING"@
    } else if code == 2 {
        "SUSPENDED"@
    } else if code == 3 {
        "TERMINATED"@
    } else if code == 4 {
        "ERROR"@
    } else {
        "UNKNOWN"@
    }
}

/// The label that the command line shows for a state's wire number.
pub fn state_label(code: i32) -> (r: &'static str)
    ensures
        r@ == state_label_of(code),
{
    match code {
        0 => "PENDING",
        1 => "RUNNING",
        2 => "SUSPENDED",
        3 => "TERMINATED",
        4 => "ERROR",
        _ => "UNKNOWN",
    }
}

/// The short label that the monitor shows for a state's wire number.
pub open spec fn monitor_label_of(code: i32) -> Seq<char> {
    if code == 1 {
        "RUN"@
    } else if code == 2 {
        "PAUSE"@
    } else if code == 4 {
        "ERR"@
    } else {
        "IDLE"@
    }
}

/// The short label that the monitor shows for a state's wire number.
pub fn monitor_label(code: i32) -> (r: &'static str)
    ensures
        r@ == monitor_label_of(code),
{
    match code {
        1 => "RUN",
        2 => "PAUSE",
        4 => "ERR",
        _ => "IDLE",
    }
}

/// An agent's usage as the kernel reports it.
#[derive(Clone, Copy, Debug, PartialEq, Eq, Structural)]
pub struct AgentStats {
    pub tokens_consumed: u32,
    pub cost_micros: u64,
    pub step_count: u32,
}

/// The usage of an agent (steps are not counted).
pub fn stats_of(agent: &Agent) -> (s: AgentStats)
    ensures
        s.tokens_consumed == agent.budget.current_tokens,
        s.cost_micros == agent.budget.current_cost_micros,
        s.step_count == 0,
{
    AgentStats {
        tokens_consumed: agent.budget.current_tokens,
        cost_micros: agent.budget.current_cost_micros,
        step_count: 0,
    }
}

/// The selection after moving down a list of `len` items: wraps from the
/// last item to the first; with no selection, the first; an empty list
/// keeps the selection as it was.
pub open spec fn next_of(selected: Option<usize>, len: usize) -> Option<usize> {
    if len == 0 {
        selected
    } else {
        match selected {
            Some(i) => if i >= len - 1 {
                Some(0usize)
            } else {
                Some((i + 1) as usize)
            },
            None => Some(0usize),
        }
    }
}

/// The selection after moving up a list of `len` items: wraps from the
/// first item to the last; with no selection, the first; an empty list
/// keeps the selection as it was.
pub open spec fn previous_of(selected: Option<usize>, len: usize) -> Option<usize> {
    if len == 0 {
        selected
    } else {
        match selected {
            Some(i) => if i == 0 {
                Some((len - 1) as usize)
            } else {
                Some((i - 1) as usize)
            },
            None => Some(0usize),
        }
    }
}

/// The monitor's selection after moving down.
pub fn next_selection(selected: Option<usize>, len: usize) -> (r: Option<usize>)
    ensures
        r == next_of(selected, len),
{
    if len == 0 {
        return selected;
    }
    match selected {
        Some(i) => if i >= len - 1 {
            Some(0)
        } else {
            Some(i + 1)
        },
        None => Some(0),
    }
}

/// The monitor's selection after moving up.
pub fn previous_selection(selected: Option<usize>, len: usize) -> (r: Option<usize>)
    ensures
        r == previous_of(selected, len),
{
    if len == 0 {
        return selected;
    }
    match selected {
        Some(i) => if i == 0 {
            Some(len - 1)
        } else {
            Some(i - 1)
        },
        None => Some(0),
    }
}

/// The monitor's selection after its list of `len` agents is refreshed:
/// the first agent is selected when nothing was and the list is not
/// empty.
pub fn selection_after_refresh(selected: Option<usize>, len: usize) -> (r: Option<usize>)
    ensures
        r == if selected is None && len > 0 {
            Some(0usize)
        } else {
            selected
        },
{
    if selected.is_none() && len > 0 {
        Some(0)
    } else {
        selected
    }
}

/// Whether the monitor's keys navigate or type a command.
#[derive(Clone, Copy, Debug, PartialEq, Eq, Structural)]
pub enum InputMode {
    Normal,
    Editing,
}

/// A key pressed in the monitor.
#[derive(Clone, Copy, Debug, PartialEq, Eq, Structural)]
pub enum MonitorKey {
    Char(char),
    Down,
    Up,
    Enter,
    Backspace,
    Esc,
    Other,
}

/// What the monitor does for a key.
#[derive(Clone, Copy, Debug, PartialEq, Eq, Structural)]
pub enum MonitorAction {
    Quit,
    StartEditing,
    SelectNext,
    SelectPrevious,
    PauseSelected,
    ResumeSelected,
    StopSelected,
    SendCommand,
    TypeChar(char),
    DeleteChar,
    StopEditing,
    Nothing,
}

/// The monitor's key bindings. Navigating: `q` quits, `i` or `/` starts a
/// command, the arrows move the selection, `p`, `r` and `k` pause, resume
/// and stop the selected agent. Typing: Enter sends the command, a
/// character is typed, Backspace deletes, Esc goes back to navigating.
pub open spec fn key_binding(mode: InputMode, key: MonitorKey) -> MonitorAction {
    match mode {
        InputMode::Normal => match key {
            MonitorKey::Char(c) => if c == 'q' {
                MonitorAction::Quit
            } else if c == 'i' || c == '/' {
                MonitorAction::StartEditing
            } else if c == 'p' {
                MonitorAction::PauseSelected
            } else if c == 'r' {
                MonitorAction::ResumeSelected
            } else if c == 'k' {
                MonitorAction::StopSelected
            } else {
                MonitorAction::Nothing
            },
            MonitorKey::Down => MonitorAction::SelectNext,
            MonitorKey::Up => MonitorAction::SelectPrevious,
            _ => MonitorAction::Nothing,
        },
        InputMode::Editing => match key {
            MonitorKey::Enter => MonitorAction::SendCommand,
            MonitorKey::Char(c) => MonitorAction::TypeChar(c),
            MonitorKey::Backspace => MonitorAction::DeleteChar,
            MonitorKey::Esc => MonitorAction::StopEditing,
            _ => MonitorAction::Nothing,
        },
    }
}

/// What the monitor does for a key pressed in the given mode.
pub fn monitor_key_action(mode: InputMode, key: MonitorKey) -> (a: MonitorAction)
    ensures
        a == key_binding(mode, key),
{
    match mode {
        InputMode::Normal => match key {
            MonitorKey::Char(c) => if c == 'q' {
                MonitorAction::Quit
            } else if c == 'i' || c == '/' {
                MonitorAction::StartEditing
            } else if c == 'p' {
                MonitorAction::PauseSelected
            } else if c == 'r' {
                MonitorAction::ResumeSelected
            } else if c == 'k' {
                MonitorAction::StopSelected
            } else {
                MonitorAction::Nothing
            },
            MonitorKey::Down => MonitorAction::SelectNext,
            MonitorKey::Up => MonitorAction::SelectPrevious,
            _ => MonitorAction::Nothing,
        },
        InputMode::Editing => match key {
            MonitorKey::Enter => MonitorAction::SendCommand,
            MonitorKey::Char(c) => MonitorAction::TypeChar(c),
            MonitorKey::Backspace => MonitorAction::DeleteChar,
            MonitorKey::Esc => MonitorAction::StopEditing,
            _ => MonitorAction::Nothing,
        },
    }
}

/// Moving down and then up returns to the item that was selected, and so
/// does moving up and then down; a selection inside the list stays inside
/// it.
pub proof fn law_selection_moves_undo(i: usize, len: usize)
    requires
        i < len,
    ensures
        previous_of(next_of(Some(i), len), len) == Some(i),
        next_of(previous_of(Some(i), len), len) == Some(i),
        next_of(Some(i), len) matches Some(j) && j < len,
        previous_of(Some(i), len) matches Some(j) && j < len,
{
}

/// Wire numbers tell the states apart, and the command line has a label
/// of its own for the number of every state.
pub proof fn law_wire_codes_distinct(s: AgentState, t: AgentState)
    ensures
        wire_code_of(s) == wire_code_of(t) ==> s == t,
        state_label_of(wire_code_of(s)) != "UNKNOWN"@,
{
    reveal_strlit("UNKNOWN");
    reveal_strlit("PENDING");
    reveal_strlit("RUNNING");
    reveal_strlit("SUSPENDED");
    reveal_strlit("TERMINATED");
    reveal_strlit("ERROR");
    assert("PENDING"@[0] != "UNKNOWN"@[0]);
    assert("RUNNING"@[0] != "UNKNOWN"@[0]);
    assert("SUSPENDED"@.len() != "UNKNOWN"@.len());
    assert("TERMINATED"@.len() != "UNKNOWN"@.len());
    assert("ERROR"@.len() != "UNKNOWN"@.len());
}

/// While a command is typed, every character key types that character,
/// space and the navigation letters included; Enter sends, Backspace
/// deletes, Esc leaves, and the arrows do nothing.
pub proof fn law_editing_types_every_character(c: char)
    ensures
        key_binding(InputMode::Editing, MonitorKey::Char(c)) == MonitorAction::TypeChar(c),
        key_binding(InputMode::Editing, MonitorKey::Enter) == MonitorAction::SendCommand,
        key_binding(InputMode::Editing, MonitorKey::Backspace) == MonitorAction::DeleteChar,
        key_binding(InputMode::Editing, MonitorKey::Esc) == MonitorAction::StopEditing,
        key_binding(InputMode::Editing, MonitorKey::Up) == MonitorAction::Nothing,
        key_binding(InputMode::Editing, MonitorKey::Down) == MonitorAction::Nothing,
        key_binding(InputMode::Editing, MonitorKey::Other) == MonitorAction::Nothing,
{
}

/// While navigating, the arrows move the selection, `q`, `i`, `/`, `p`,
/// `r` and `k` have their commands, and no other key does anything; no
/// key types a character.
pub proof fn law_navigation_bindings(c: char, key: MonitorKey)
    ensures
        key_binding(InputMode::Normal, MonitorKey::Down) == MonitorAction::SelectNext,
        key_binding(InputMode::Normal, MonitorKey::Up) == MonitorAction::SelectPrevious,
        key_binding(InputMode::Normal, MonitorKey::Char('q')) == MonitorAction::Quit,
        key_binding(InputMode::Normal, MonitorKey::Char('i')) == MonitorAction::StartEditing,
        key_binding(InputMode::Normal, MonitorKey::Char('/')) == MonitorAction::StartEditing,
        key_binding(InputMode::Normal, MonitorKey::Char('p')) == MonitorAction::PauseSelected,
        key_binding(InputMode::Normal, MonitorKey::Char('r')) == MonitorAction::ResumeSelected,
        key_binding(InputMode::Normal, MonitorKey::Char('k')) == MonitorAction::StopSelected,
        c != 'q' && c != 'i' && c != '/' && c != 'p' && c != 'r' && c != 'k' ==> key_binding(
            InputMode::Normal,
            MonitorKey::Char(c),
        ) == MonitorAction::Nothing,
        key_binding(InputMode::Normal, MonitorKey::Enter) == MonitorAction::Nothing,
        key_binding(InputMode::Normal, MonitorKey::Backspace) == MonitorAction::Nothing,
        key_binding(InputMode::Normal, MonitorKey::Esc) == MonitorAction::Nothing,
        !(key_binding(InputMode::Normal, key) is TypeChar),
{
}

/// The monitor shows a state of its own only for running, paused and
/// failed agents; every other number shows as idle.
pub proof fn law_monitor_labels(code: i32)
    ensures
        code == 1 ==> monitor_label_of(code) == "RUN"@,
        code == 2 ==> monitor_label_of(code) == "PAUSE"@,
        code == 4 ==> monitor_label_of(code) == "ERR"@,
        code != 1 && code != 2 && code != 4 ==> monitor_label_of(code) == "IDLE"@,
{
}

/// Moving down goes to the next agent and from the last to the first;
/// moving up goes to the previous one and from the first to the last; with
/// nothing selected either move selects the first; on an empty list the
/// selection stays.
pub proof fn law_selection_moves_cyclically(i: usize, len: usize, sel: Option<usize>)
    ensures
        i < len ==> next_of(Some(i), len) == Some(((i + 1) % (len as int)) as usize),
        i < len ==> previous_of(Some(i), len) == Some(((i + len - 1) % (len as int)) as usize),
        len > 0 ==> next_of(None, len) == Some(0usize) && previous_of(None, len) == Some(0usize),
        len == 0 ==> next_of(sel, len) == sel && previous_of(sel, len) == sel,
{
    if i < len {
        if i + 1 == len {
            assert((i + 1) % (len as int) == 0) by (nonlinear_arith)
                requires
                    i + 1 == len,
                    len > 0,
            ;
        } else {
            assert((i + 1) % (len as int) == i + 1) by (nonlinear_arith)
                requires
                    i + 1 < len,
            ;
        }
        if i == 0 {
            assert((i + len - 1) % (len as int) == len - 1) by (nonlinear_arith)
                requires
                    i == 0,
                    len > 0,
            ;
        } else {
            assert((i + len - 1) % (len as int) == i - 1) by (nonlinear_arith)
                requires
                    0 < i < len,
            ;
        }
    }
}

/// States travel as their position in the lifecycle list, and the command
/// line labels each with its name in capitals.
pub proof fn law_wire_codes_and_labels()
    ensures
        wire_code_of(AgentState::Pending) == 0,
        wire_code_of(AgentState::Running) == 1,
        wire_code_of(AgentState::Suspended) == 2,
        wire_code_of(AgentState::Terminated) == 3,
        wire_code_of(AgentState::Error) == 4,
        state_label_of(0) == "PENDING"@,
        state_label_of(1) == "RUNNING"@,
        state_label_of(2) == "SUSPENDED"@,
        state_label_of(3) == "TERMINATED"@,
        state_label_of(4) == "ERROR"@,
        forall|c: i32| (c < 0 || c > 4) ==> #[trigger] state_label_of(c) == "UNKNOWN"@,
        default_budget_request().max_cost_micros == 1_000_000,
        default_budget_request().max_tokens == 10000,
{
}

} // verus!
