//! Command dispatch table: the map from command name to handler, built
//! once while the bot starts and read-only afterwards.
//!
//! Registering a name that is already taken is a configuration error: the
//! registration is rejected and the first handler stays in place, it is
//! never silently replaced.

use crate::help::HelpDetails;
use vstd::prelude::*;

verus! {

/// One registered command: its unique name, the handler the dispatcher
/// invokes for it, and its entry in the help catalogue. The handler type
/// is a parameter: callers store whatever callable their runtime uses.
pub struct CommandDetails<H> {
    pub name: String,
    pub command: H,
    pub help: HelpDetails,
}

/// Index `i` holds the first entry of `s` named `name`.
pub open spec fn first_entry_match<H>(s: Seq<CommandDetails<H>>, name: Seq<char>, i: int) -> bool {
    &&& 0 <= i < s.len()
    &&& s[i].name@ == name
    &&& forall|j: int| 0 <= j < i ==> s[j].name@ != name
}

/// No two entries of `s` share a name.
pub open spec fn names_unique<H>(s: Seq<CommandDetails<H>>) -> bool {
    forall|i: int, j: int|
        0 <= i < j < s.len() ==> #[trigger] s[i].name@ != #[trigger] s[j].name@
}

/// The table after an attempted registration: a taken name leaves the
/// table untouched, a fresh one is appended.
pub open spec fn after_register<H>(s: Seq<CommandDetails<H>>, entry: CommandDetails<H>) -> Seq<
    CommandDetails<H>,
> {
    if exists|i: int| 0 <= i < s.len() && (#[trigger] s[i].name@) == entry.name@ {
        s
    } else {
        s.push(entry)
    }
}

/// The dispatch table, in registration order.
pub struct DispatchTable<H> {
    entries: Vec<CommandDetails<H>>,
}

impl<H> View for DispatchTable<H> {
    type V = Seq<CommandDetails<H>>;

    closed spec fn view(&self) -> Seq<CommandDetails<H>> {
        self.entries@
    }
}

impl<H> DispatchTable<H> {
    /// An empty table, ready for startup registration.
    pub fn new() -> (t: Self)
        ensures
            t@ == Seq::<CommandDetails<H>>::empty(),
            names_unique(t@),
    {
        DispatchTable { entries: Vec::new() }
    }

    /// Registers a command. Returns `false`, and changes nothing, if the
    /// name is already registered: a duplicate name in the configuration
    /// is surfaced, never papered over by replacing the first handler.
    pub fn register(&mut self, entry: CommandDetails<H>) -> (fresh: bool)
        requires
            names_unique(old(self)@),
        ensures
            names_unique(final(self)@),
            fresh == (forall|i: int|
                0 <= i < old(self)@.len() ==> (#[trigger] old(self)@[i].name@) != entry.name@),
            final(self)@ == after_register(old(self)@, entry),
    {
        let mut i: usize = 0;
        let n = self.entries.len();
        while i < n
            invariant
                self@ == old(self)@,
                names_unique(self@),
                i <= n == self@.len(),
                forall|j: int| 0 <= j < i ==> (#[trigger] self@[j].name@) != entry.name@,
            decreases n - i,
        {
            if self.entries[i].name == entry.name {
                return false;
            }
            i = i + 1;
        }
        self.entries.push(entry);
        true
    }

    /// Looks the handler up under a command name: a pure read, safe for
    /// any number of concurrent callers once startup is over.
    pub fn lookup(&self, name: &String) -> (r: Option<&H>)
        ensures
            match r {
                Some(h) => exists|i: int|
                    #[trigger] first_entry_match(self@, name@, i) && h == &self@[i].command,
                None => forall|i: int| 0 <= i < self@.len() ==> self@[i].name@ != name@,
            },
    {
        let mut i: usize = 0;
        let n = self.entries.len();
        while i < n
            invariant
                i <= n == self@.len(),
                forall|j: int| 0 <= j < i ==> self@[j].name@ != name@,
            decreases n - i,
        {
            if self.entries[i].name == *name {
                proof {
                    assert(first_entry_match(self@, name@, i as int));
                }
                return Some(&self.entries[i].command);
            }
            i = i + 1;
        }
        None
    }

    /// How many commands are registered.
    pub fn len(&self) -> (n: usize)
        ensures
            n == self@.len(),
    {
        self.entries.len()
    }

    /// Assembles the full help tree from the registered entries, in
    /// registration order. Read once at startup to seed the help data.
    pub fn snapshot_help_tree(&self) -> (helps: Vec<&HelpDetails>)
        ensures
            helps@.len() == self@.len(),
            forall|i: int| 0 <= i < helps@.len() ==> helps@[i] == &self@[i].help,
    {
        let mut helps: Vec<&HelpDetails> = Vec::new();
        let mut i: usize = 0;
        let n = self.entries.len();
        while i < n
            invariant
                i <= n == self@.len(),
                helps@.len() == i,
                forall|j: int| 0 <= j < i ==> helps@[j] == &self@[j].help,
            decreases n - i,
        {
            helps.push(&self.entries[i].help);
            i = i + 1;
        }
        helps
    }
}

/// Registering a name and then registering the same name again leaves the
/// table exactly as after the first registration: the duplicate is
/// rejected, and the name still resolves to the first entry.
pub proof fn lemma_duplicate_registration_rejected<H>(
    s: Seq<CommandDetails<H>>,
    first: CommandDetails<H>,
    second: CommandDetails<H>,
)
    requires
        second.name@ == first.name@,
        forall|i: int| 0 <= i < s.len() ==> (#[trigger] s[i].name@) != first.name@,
    ensures
        after_register(after_register(s, first), second) == after_register(s, first),
        first_entry_match(after_register(s, first), first.name@, s.len() as int),
        after_register(s, first)[s.len() as int] == first,
{
    let t = after_register(s, first);
    assert(t == s.push(first));
    assert(t[s.len() as int].name@ == first.name@);
    assert(exists|i: int| 0 <= i < t.len() && (#[trigger] t[i].name@) == second.name@);
}

} // verus!
