//! Tools that agents call, and the kernel's registry of them.
use crate::text::{joined, lemma_joined_step, same_text};
use vstd::prelude::*;

verus! {

/// The output of a tool, fed back to the agent.
#[derive(Debug)]
pub struct ToolCallResult {
    pub tool_name: String,
    pub result: String,
    pub is_error: bool,
}

/// A registered tool: its name, the JSON schema of its arguments, and the
/// tool itself.
pub struct ToolEntry<T> {
    pub name: String,
    pub schema: String,
    pub tool: T,
}

/// The kernel's registry of the tools available to agents, keyed by name.
/// Tools are kept in the order their names were first registered.
pub struct ToolRegistry<T> {
    entries: Vec<ToolEntry<T>>,
}

/// What a registry holds: for each tool, its name, its schema and the tool.
pub type RegistryView<T> = Seq<(Seq<char>, Seq<char>, T)>;

/// No name is registered twice.
pub open spec fn names_unique<T>(r: RegistryView<T>) -> bool {
    forall|i: int, j: int| 0 <= i < r.len() && 0 <= j < r.len() && i != j ==> r[i].0 != r[j].0
}

/// The position of the tool registered under `name`, if any.
pub open spec fn position_of<T>(r: RegistryView<T>, name: Seq<char>) -> Option<int> {
    if exists|i: int| 0 <= i < r.len() && r[i].0 == name {
        Some(choose|i: int| 0 <= i < r.len() && r[i].0 == name)
    } else {
        None
    }
}

/// The registry after registering `tool` under `name` with `schema`: a tool
/// of the same name is replaced in its place; a new name is added last.
pub open spec fn registered<T>(r: RegistryView<T>, name: Seq<char>, schema: Seq<char>, tool: T) -> RegistryView<T> {
    match position_of(r, name) {
        Some(i) => r.update(i, (name, schema, tool)),
        None => r.push((name, schema, tool)),
    }
}

/// The tool registered under `name`, if any.
pub open spec fn lookup<T>(r: RegistryView<T>, name: Seq<char>) -> Option<T> {
    match position_of(r, name) {
        Some(i) => Some(r[i].2),
        None => None,
    }
}

/// The schemas of all registered tools as one JSON array.
pub open spec fn combined_schema_of<T>(r: RegistryView<T>) -> Seq<char> {
    "["@ + joined(r.map_values(|e: (Seq<char>, Seq<char>, T)| e.1), ","@) + "]"@
}

impl<T> View for ToolRegistry<T> {
    type V = RegistryView<T>;

    closed spec fn view(&self) -> RegistryView<T> {
        self.entries@.map_values(|e: ToolEntry<T>| (e.name@, e.schema@, e.tool))
    }
}

impl<T> ToolRegistry<T> {
    #[verifier::type_invariant]
    closed spec fn inv(self) -> bool {
        names_unique(self@)
    }

    /// An empty registry.
    pub fn new() -> (r: Self)
        ensures
            r@ == Seq::<(Seq<char>, Seq<char>, T)>::empty(),
    {
        let r = ToolRegistry { entries: Vec::new() };
        assert(r@ =~= Seq::<(Seq<char>, Seq<char>, T)>::empty());
        r
    }

    /// The position of the tool named `name`.
    fn find(&self, name: &str) -> (r: Option<usize>)
        ensures
            r matches Some(i) ==> position_of(self@, name@) == Some(i as int),
            r is None ==> position_of(self@, name@) is None,
    {
        proof {
            use_type_invariant(self);
        }
        let mut i: usize = 0;
        while i < self.entries.len()
            invariant
                i <= self.entries@.len(),
                self@.len() == self.entries@.len(),
                names_unique(self@),
                forall|j: int| 0 <= j < i ==> self@[j].0 != name@,
            decreases self.entries@.len() - i,
        {
            if same_text(self.entries[i].name.as_str(), name) {
                assert(self@[i as int].0 == name@);
                return Some(i);
            }
            i = i + 1;
        }
        None
    }

    /// Registers `tool` under `name` with the given schema, replacing any
    /// tool registered under that name.
    pub fn register(&mut self, name: String, schema: String, tool: T)
        ensures
            final(self)@ == registered(old(self)@, name@, schema@, tool),
    {
        proof {
            use_type_invariant(&*self);
        }
        let ghost old_view = self@;
        let found = self.find(name.as_str());
        let mut entries: Vec<ToolEntry<T>> = Vec::new();
        std::mem::swap(&mut entries, &mut self.entries);
        let ghost n = name@;
        let ghost sc = schema@;
        match found {
            Some(i) => {
                entries.set(i, ToolEntry { name, schema, tool });
            },
            None => {
                entries.push(ToolEntry { name, schema, tool });
            },
        }
        let ghost new_view = entries@.map_values(|e: ToolEntry<T>| (e.name@, e.schema@, e.tool));
        assert(new_view =~= registered(old_view, n, sc, tool));
        proof {
            law_register_then_get(old_view, n, sc, tool, n);
        }
        self.entries = entries;
    }

    /// The tool registered under `name`, if any.
    pub fn get(&self, name: &str) -> (r: Option<&T>)
        ensures
            r is Some <==> lookup(self@, name@) is Some,
            r matches Some(t) ==> *t == lookup(self@, name@).unwrap(),
    {
        match self.find(name) {
            Some(i) => Some(&self.entries[i].tool),
            None => None,
        }
    }

    /// The schemas of all registered tools as one JSON array: `[`, the
    /// schemas separated by commas, `]`.
    pub fn combined_schema(&self) -> (r: String)
        ensures
            r@ == combined_schema_of(self@),
    {
        let ghost parts = self@.map_values(|e: (Seq<char>, Seq<char>, T)| e.1);
        let mut r = String::from_str("[");
        let mut i: usize = 0;
        while i < self.entries.len()
            invariant
                i <= self.entries@.len(),
                self@.len() == self.entries@.len(),
                parts == self@.map_values(|e: (Seq<char>, Seq<char>, T)| e.1),
                r@ == "["@ + joined(parts.take(i as int), ","@),
            decreases self.entries@.len() - i,
        {
            proof {
                lemma_joined_step(parts, ","@, i as int);
            }
            if i > 0 {
                r.append(",");
            }
            assert(self.entries@[i as int].schema@ == parts[i as int]);
            r.append(self.entries[i].schema.as_str());
            i = i + 1;
        }
        assert(parts.take(i as int) =~= parts);
        r.append("]");
        r
    }
}

impl<T> Default for ToolRegistry<T> {
    /// An empty registry.
    fn default() -> (r: Self)
        ensures
            r@ == Seq::<(Seq<char>, Seq<char>, T)>::empty(),
    {
        Self::new()
    }
}

/// A tool is found under the name it was registered with, and registering
/// under one name leaves what every other name finds as it was.
pub proof fn law_register_then_get<T>(
    r: RegistryView<T>,
    name: Seq<char>,
    schema: Seq<char>,
    tool: T,
    other: Seq<char>,
)
    requires
        names_unique(r),
    ensures
        lookup(registered(r, name, schema, tool), name) == Some(tool),
        other != name ==> lookup(registered(r, name, schema, tool), other) == lookup(r, other),
        names_unique(registered(r, name, schema, tool)),
{
    let s = registered(r, name, schema, tool);
    match position_of(r, name) {
        Some(i) => {
            assert(s[i].0 == name);
            assert(position_of(s, name) == Some(i));
            if other != name {
                if exists|k: int| 0 <= k < r.len() && r[k].0 == other {
                    let k = choose|k: int| 0 <= k < r.len() && r[k].0 == other;
                    assert(s[k].0 == other);
                    assert(position_of(s, other) == Some(k));
                } else {
                    assert(!exists|k: int| 0 <= k < s.len() && s[k].0 == other);
                }
            }
        },
        None => {
            assert(s[r.len() as int].0 == name);
            assert(position_of(s, name) == Some(r.len() as int));
            if other != name {
                if exists|k: int| 0 <= k < r.len() && r[k].0 == other {
                    let k = choose|k: int| 0 <= k < r.len() && r[k].0 == other;
                    assert(s[k].0 == other);
                    assert(position_of(s, other) == Some(k));
                } else {
                    assert(!exists|k: int| 0 <= k < s.len() && s[k].0 == other);
                }
            }
        },
    }
}

} // verus!
