//! Identities ("cognitive images"): templates for spawning specialised
//! agents.
use crate::text::{joined, lemma_joined_step, same_text, spec_debug_text, debug_text};
use vstd::prelude::*;

verus! {

/// A template for spawning agents: a role, its system prompt and the tools
/// it may use. The tools are kept in the order they were first allowed,
/// each once.
#[derive(Debug)]
pub struct Identity {
    /// The name of the role (e.g. "Senior Architect").
    pub role_name: String,
    /// The base system prompt that defines the agent's behaviour.
    pub system_prompt: String,
    /// The tools that the identity may use.
    pub allowed_tools: Vec<String>,
}

/// The names of the tools an identity may use, in order.
pub open spec fn tool_names(tools: Seq<String>) -> Seq<Seq<char>> {
    tools.map_values(|t: String| t@)
}

/// No tool is allowed twice.
pub open spec fn identity_wf(id: Identity) -> bool {
    tool_names(id.allowed_tools@).no_duplicates()
}

/// The allowed tools after allowing `name`: unchanged where it is allowed
/// already, else extended by it.
pub open spec fn with_tool(tools: Seq<Seq<char>>, name: Seq<char>) -> Seq<Seq<char>> {
    if tools.contains(name) {
        tools
    } else {
        tools.push(name)
    }
}

/// A set of texts in the form that `Debug` writes a set: each quoted and
/// escaped, separated by ", ", between braces.
pub open spec fn debug_set(names: Seq<Seq<char>>) -> Seq<char> {
    "{"@ + joined(names.map_values(|n: Seq<char>| spec_debug_text(n)), ", "@) + "}"@
}

/// The kernel instructions that open every boot prompt, before the list of
/// tools.
pub open spec fn kernel_instructions() -> Seq<char> {
    "\n\n[AETHER-OS KERNEL INSTRUCTIONS]\n1. You are running as a managed process in AetherOS.\n2. Every action is checkpointed for persistence.\n3. Available Tools: "@
}

/// The instruction that closes every boot prompt.
pub open spec fn budget_instruction() -> Seq<char> {
    "\n4. If you exceed your budget, you will be suspended."@
}

/// The system prompt followed by the kernel's four instructions, with the
/// tools an identity may use.
pub open spec fn instructed_prompt(prompt: Seq<char>, tools: Seq<Seq<char>>) -> Seq<char> {
    prompt + kernel_instructions() + debug_set(tools) + budget_instruction()
}

/// The instruction that names the identity's role, last in the prompt.
pub open spec fn role_instruction(role: Seq<char>) -> Seq<char> {
    "\n5. Your role: "@ + role
}

/// The boot prompt of an identity: its system prompt, the kernel's
/// instructions with the tools it may use, and last its role.
pub open spec fn boot_prompt_of(role: Seq<char>, prompt: Seq<char>, tools: Seq<Seq<char>>) -> Seq<
    char,
> {
    instructed_prompt(prompt, tools) + role_instruction(role)
}

impl Identity {
    /// A new identity with no tools allowed.
    pub fn new(role_name: String, system_prompt: String) -> (id: Identity)
        ensures
            id.role_name == role_name,
            id.system_prompt == system_prompt,
            id.allowed_tools@.len() == 0,
            identity_wf(id),
    {
        Identity { role_name, system_prompt, allowed_tools: Vec::new() }
    }

    /// Allows the identity to use a tool (allowing it again changes
    /// nothing).
    pub fn allow_tool(&mut self, tool_name: &str)
        ensures
            tool_names(final(self).allowed_tools@) == with_tool(
                tool_names(old(self).allowed_tools@),
                tool_name@,
            ),
            final(self).role_name == old(self).role_name,
            final(self).system_prompt == old(self).system_prompt,
            identity_wf(*old(self)) ==> identity_wf(*final(self)),
    {
        let ghost names = tool_names(self.allowed_tools@);
        let mut i: usize = 0;
        while i < self.allowed_tools.len()
            invariant
                i <= self.allowed_tools@.len(),
                names == tool_names(self.allowed_tools@),
                forall|j: int| 0 <= j < i ==> names[j] != tool_name@,
            decreases self.allowed_tools@.len() - i,
        {
            if same_text(self.allowed_tools[i].as_str(), tool_name) {
                assert(names[i as int] == tool_name@);
                assert(names.contains(tool_name@));
                return;
            }
            i = i + 1;
        }
        assert(!names.contains(tool_name@));
        self.allowed_tools.push(String::from_str(tool_name));
        assert(tool_names(self.allowed_tools@) =~= names.push(tool_name@));
    }

    /// The identity's boot prompt: its system prompt followed by the
    /// kernel's instructions, which list the tools it may use in the form
    /// of a `Debug` set, and last an instruction naming its role.
    pub fn boot_prompt(&self) -> (r: String)
        ensures
            r@ == boot_prompt_of(
                self.role_name@,
                self.system_prompt@,
                tool_names(self.allowed_tools@),
            ),
    {
        let ghost parts = tool_names(self.allowed_tools@).map_values(
            |n: Seq<char>| spec_debug_text(n),
        );
        let mut r = String::from_str(self.system_prompt.as_str());
        r.append(
            "\n\n[AETHER-OS KERNEL INSTRUCTIONS]\n1. You are running as a managed process in AetherOS.\n2. Every action is checkpointed for persistence.\n3. Available Tools: ",
        );
        r.append("{");
        let ghost head = r@;
        let mut i: usize = 0;
        while i < self.allowed_tools.len()
            invariant
                i <= self.allowed_tools@.len(),
                parts.len() == self.allowed_tools@.len(),
                parts == tool_names(self.allowed_tools@).map_values(
                    |n: Seq<char>| spec_debug_text(n),
                ),
                r@ == head + joined(parts.take(i as int), ", "@),
            decreases self.allowed_tools@.len() - i,
        {
            proof {
                lemma_joined_step(parts, ", "@, i as int);
            }
            if i > 0 {
                r.append(", ");
            }
            let d = debug_text(self.allowed_tools[i].as_str());
            assert(d@ == parts[i as int]);
            r.append(d.as_str());
            i = i + 1;
        }
        assert(parts.take(i as int) =~= parts);
        r.append("}");
        r.append("\n4. If you exceed your budget, you will be suspended.");
        r.append("\n5. Your role: ");
        r.append(self.role_name.as_str());
        r
    }
}

/// Allowing a tool twice is allowing it once, and allowing tools keeps the
/// list free of repeats.
pub proof fn law_allow_tool_idempotent(tools: Seq<Seq<char>>, name: Seq<char>)
    ensures
        with_tool(with_tool(tools, name), name) == with_tool(tools, name),
        with_tool(tools, name).contains(name),
        tools.no_duplicates() ==> with_tool(tools, name).no_duplicates(),
{
    assert(tools.push(name).last() == name);
    assert(tools.push(name).contains(name));
    if tools.no_duplicates() && !tools.contains(name) {
        let t = tools.push(name);
        assert forall|i: int, j: int| 0 <= i < t.len() && 0 <= j < t.len() && i != j implies t[i]
            != t[j] by {
            if i < tools.len() && j < tools.len() {
            } else if i == tools.len() {
                assert(tools.contains(t[j]) || j == i);
            } else {
                assert(tools.contains(t[i]) || j == i);
            }
        }
    }
}

/// The boot prompt begins with the system prompt and the kernel's four
/// instructions, unchanged, and ends with the identity's role.
pub proof fn law_boot_prompt_keeps_instructions_first(
    role: Seq<char>,
    prompt: Seq<char>,
    tools: Seq<Seq<char>>,
)
    ensures
        ({
            let whole = boot_prompt_of(role, prompt, tools);
            let head = instructed_prompt(prompt, tools);
            &&& whole.subrange(0, prompt.len() as int) == prompt
            &&& whole.subrange(0, head.len() as int) == head
            &&& whole.subrange(whole.len() - role.len(), whole.len() as int) == role
        }),
{
    let whole = boot_prompt_of(role, prompt, tools);
    let head = instructed_prompt(prompt, tools);
    assert(whole.subrange(0, head.len() as int) =~= head);
    assert(head == prompt + (kernel_instructions() + debug_set(tools) + budget_instruction()))
        by {
        assert(head =~= prompt + (kernel_instructions() + debug_set(tools)
            + budget_instruction()));
    }
    assert(whole.subrange(0, prompt.len() as int) =~= prompt);
    assert(whole == (head + "\n5. Your role: "@) + role) by {
        assert(whole =~= (head + "\n5. Your role: "@) + role);
    }
    assert(whole.subrange(whole.len() - role.len(), whole.len() as int) =~= role);
}

} // verus!
