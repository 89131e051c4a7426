//! The help catalogue and its pagination.
//!
//! Commands describe themselves as a tree of [`HelpDetails`]: a name, a
//! description, and sub-commands in order. A help session shows one page
//! of either the whole catalogue or one command's sub-commands, fifteen
//! entries to a page, with navigation buttons whose enabled state follows
//! the clamped page bounds.

use vstd::arithmetic::div_mod::lemma_fundamental_div_mod;
use vstd::arithmetic::mul::lemma_mul_inequality;
use vstd::prelude::*;

verus! {

/// How many entries one page of a help listing shows.
pub const PAGE_LENGTH: usize = 15;

/// One node of the help tree: a command or sub-command, its description,
/// and its sub-commands in order. Built once at startup and read-only
/// afterwards.
#[derive(Debug)]
pub struct HelpDetails {
    pub name: String,
    pub details: String,
    pub sub_commands: Vec<HelpDetails>,
}

impl Default for HelpDetails {
    /// A placeholder entry with no sub-commands.
    fn default() -> (d: Self)
        ensures
            d.name@ == "default command"@,
            d.details@ == "default text"@,
            d.sub_commands@.len() == 0,
    {
        HelpDetails {
            name: "default command".to_owned(),
            details: "default text".to_owned(),
            sub_commands: Vec::new(),
        }
    }
}

/// What a help invocation asks for: the whole catalogue, or the
/// sub-commands of one named command.
#[derive(Debug, PartialEq)]
pub enum HelpCommandOptions {
    AllCommands,
    SubCommand(String),
}

impl HelpCommandOptions {
    /// Reads the invocation's optional argument: no argument means the
    /// whole catalogue, an argument names the command to look up.
    pub fn parse(target: Option<String>) -> (r: Self)
        ensures
            match target {
                None => r is AllCommands,
                Some(name) => r matches HelpCommandOptions::SubCommand(n) && n == name,
            },
    {
        match target {
            None => HelpCommandOptions::AllCommands,
            Some(name) => HelpCommandOptions::SubCommand(name),
        }
    }
}

/// How many pages a listing of `count` entries takes: `count / PAGE_LENGTH`
/// rounded up, and at least one page even for an empty listing.
pub open spec fn spec_total_pages(count: int) -> int {
    if count <= 0 {
        1
    } else {
        (count - 1) / (PAGE_LENGTH as int) + 1
    }
}

/// Index `i` is the first entry of `s` that carries `name`.
pub open spec fn first_match(s: Seq<HelpDetails>, name: Seq<char>, i: int) -> bool {
    &&& 0 <= i < s.len()
    &&& s[i].name@ == name
    &&& forall|j: int| 0 <= j < i ==> s[j].name@ != name
}

/// The number of pages it takes to list `count` entries.
pub fn total_pages(count: usize) -> (n: usize)
    ensures
        n == spec_total_pages(count as int),
        n >= 1,
{
    if count == 0 {
        1
    } else {
        (count - 1) / PAGE_LENGTH + 1
    }
}

/// The enabled state of a page's navigation buttons: `Back` is disabled
/// exactly on the first page, `Forward` exactly on the last.
#[derive(Clone, Copy, Debug, PartialEq, Eq, Structural)]
pub struct Buttons {
    pub back_enabled: bool,
    pub forward_enabled: bool,
}

/// Computes the button states for the given page of a listing of
/// `commands` entries.
pub fn create_buttons(commands: usize, page: usize) -> (b: Buttons)
    ensures
        b.back_enabled == (page != 0),
        b.forward_enabled == (page + 1 < spec_total_pages(commands as int)),
{
    let total = total_pages(commands);
    Buttons { back_enabled: page != 0, forward_enabled: page < total - 1 }
}

/// How many pages the listing selected by `options` takes: the whole
/// catalogue, or the sub-commands of the first entry carrying the given
/// name. `None` when that entry does not exist or has nothing to page
/// through.
pub fn page_count(data: &[HelpDetails], options: &HelpCommandOptions) -> (r: Option<usize>)
    ensures
        match options {
            HelpCommandOptions::AllCommands => r == Some(
                spec_total_pages(data@.len() as int) as usize,
            ),
            HelpCommandOptions::SubCommand(name) => match r {
                Some(p) => exists|i: int|
                    first_match(data@, name@, i) && #[trigger] data@[i].sub_commands@.len() > 0
                        && p == spec_total_pages(data@[i].sub_commands@.len() as int),
                None => forall|i: int|
                    first_match(data@, name@, i) ==> #[trigger] data@[i].sub_commands@.len() == 0,
            },
        },
{
    match options {
        HelpCommandOptions::AllCommands => Some(total_pages(data.len())),
        HelpCommandOptions::SubCommand(name) => {
            match find_by_name(data, name) {
                None => None,
                Some(details) => {
                    if details.sub_commands.len() == 0 {
                        None
                    } else {
                        Some(total_pages(details.sub_commands.len()))
                    }
                },
            }
        },
    }
}

/// One line of a rendered help page.
#[derive(Debug, PartialEq)]
pub struct HelpEntry {
    pub name: String,
    pub details: String,
    pub has_sub_commands: bool,
}

/// A fully computed page of a help listing, ready for the platform layer
/// to format and send: the visible entries, the page position, and the
/// button states.
#[derive(Debug)]
pub struct HelpPage {
    /// The command whose sub-commands the page lists, when the listing is
    /// not the whole catalogue.
    pub parent: Option<HelpEntry>,
    pub entries: Vec<HelpEntry>,
    pub page: usize,
    pub total_pages: usize,
    pub buttons: Buttons,
}

/// The rendered line `e` shows exactly the node `d`.
pub open spec fn entry_matches(e: HelpEntry, d: HelpDetails) -> bool {
    &&& e.name@ == d.name@
    &&& e.details@ == d.details@
    &&& e.has_sub_commands == (d.sub_commands@.len() > 0)
}

/// The rendered lines `entries` are exactly the entries of `list` that
/// fall on the given page: those with index in
/// `[page * PAGE_LENGTH, (page + 1) * PAGE_LENGTH)`, in order.
pub open spec fn page_of(entries: Seq<HelpEntry>, list: Seq<HelpDetails>, page: int) -> bool
    recommends
        page < spec_total_pages(list.len() as int),
{
    let start = page * (PAGE_LENGTH as int);
    let end = if start + (PAGE_LENGTH as int) <= list.len() {
        start + (PAGE_LENGTH as int)
    } else {
        list.len() as int
    };
    &&& entries.len() == end - start
    &&& forall|k: int|
        0 <= k < entries.len() ==> entry_matches(#[trigger] entries[k], list[start + k])
}

/// The listing a help invocation pages through: the whole catalogue, or
/// the sub-commands of the first entry carrying the requested name.
/// `None` when that entry is missing or has no sub-commands to navigate.
pub open spec fn selected_listing(
    data: Seq<HelpDetails>,
    options: HelpCommandOptions,
) -> Option<Seq<HelpDetails>> {
    match options {
        HelpCommandOptions::AllCommands => Some(data),
        HelpCommandOptions::SubCommand(name) => {
            if exists|i: int|
                first_match(data, name@, i) && #[trigger] data[i].sub_commands@.len() > 0 {
                let i = choose|i: int|
                    first_match(data, name@, i) && #[trigger] data[i].sub_commands@.len() > 0;
                Some(data[i].sub_commands@)
            } else {
                None
            }
        },
    }
}

/// Two first matches are the same match.
proof fn lemma_first_match_unique(s: Seq<HelpDetails>, name: Seq<char>, i1: int, i2: int)
    requires
        first_match(s, name, i1),
        first_match(s, name, i2),
    ensures
        i1 == i2,
{
}

/// The entries of `list` that fall on the given page, as rendered lines.
fn page_entries(list: &[HelpDetails], page: usize) -> (v: Vec<HelpEntry>)
    requires
        page < spec_total_pages(list@.len() as int),
    ensures
        page_of(v@, list@, page as int),
{
    let len = list.len();
    proof {
        if list@.len() > 0 {
            let l = list@.len() as int;
            lemma_fundamental_div_mod(l - 1, PAGE_LENGTH as int);
            lemma_mul_inequality(page as int, (l - 1) / (PAGE_LENGTH as int), PAGE_LENGTH as int);
        }
    }
    let start = page * PAGE_LENGTH;
    let end = if len - start > PAGE_LENGTH {
        start + PAGE_LENGTH
    } else {
        len
    };
    let mut v: Vec<HelpEntry> = Vec::new();
    let mut i: usize = start;
    while i < end
        invariant
            start <= i <= end <= list@.len(),
            end - start <= PAGE_LENGTH,
            end == if start + PAGE_LENGTH <= list@.len() {
                (start + PAGE_LENGTH) as int
            } else {
                list@.len() as int
            },
            v@.len() == i - start,
            forall|k: int|
                0 <= k < v@.len() ==> entry_matches(#[trigger] v@[k], list@[start + k]),
        decreases end - i,
    {
        let d = &list[i];
        v.push(
            HelpEntry {
                name: d.name.clone(),
                details: d.details.clone(),
                has_sub_commands: d.sub_commands.len() > 0,
            },
        );
        i = i + 1;
    }
    v
}

/// Computes the page a help session shows: the visible entries of the
/// selected listing, the total page count, and the button states, or the
/// requested name when it matches nothing navigable. The failure happens
/// before any session state exists, so nothing is left to clean up.
pub fn create_message(data: &[HelpDetails], options: &HelpCommandOptions, page: usize) -> (r:
    Result<HelpPage, String>)
    requires
        match selected_listing(data@, *options) {
            Some(l) => page < spec_total_pages(l.len() as int),
            None => true,
        },
    ensures
        match r {
            Ok(v) => {
                &&& selected_listing(data@, *options) matches Some(l)
                &&& page_of(v.entries@, selected_listing(data@, *options)->Some_0, page as int)
                &&& v.page == page
                &&& v.total_pages == spec_total_pages(
                    selected_listing(data@, *options)->Some_0.len() as int,
                )
                &&& v.buttons.back_enabled == (page != 0)
                &&& (v.buttons.forward_enabled <==> (page as int) + 1 < spec_total_pages(
                    selected_listing(data@, *options)->Some_0.len() as int,
                ))
                &&& match *options {
                    HelpCommandOptions::AllCommands => v.parent is None,
                    HelpCommandOptions::SubCommand(name) => v.parent matches Some(p)
                        && exists|i: int|
                        first_match(data@, name@, i) && entry_matches(
                            p,
                            #[trigger] data@[i],
                        ),
                }
            },
            Err(missing) => {
                &&& *options matches HelpCommandOptions::SubCommand(name)
                &&& missing@ == name@
                &&& selected_listing(data@, *options) is None
            },
        },
{
    match options {
        HelpCommandOptions::AllCommands => {
            let entries = page_entries(data, page);
            let buttons = create_buttons(data.len(), page);
            Ok(
                HelpPage {
                    parent: None,
                    entries,
                    page,
                    total_pages: total_pages(data.len()),
                    buttons,
                },
            )
        },
        HelpCommandOptions::SubCommand(name) => {
            match find_by_name(data, name) {
                None => Err(name.clone()),
                Some(d) => {
                    if d.sub_commands.len() == 0 {
                        proof {
                            let j = choose|i: int|
                                first_match(data@, name@, i) && d == &data@[i];
                            if exists|i: int|
                                first_match(data@, name@, i)
                                    && #[trigger] data@[i].sub_commands@.len() > 0 {
                                let k = choose|i: int|
                                    first_match(data@, name@, i)
                                        && #[trigger] data@[i].sub_commands@.len() > 0;
                                lemma_first_match_unique(data@, name@, j, k);
                            }
                        }
                        Err(name.clone())
                    } else {
                        proof {
                            let j = choose|i: int|
                                first_match(data@, name@, i) && d == &data@[i];
                            assert(first_match(data@, name@, j)
                                && data@[j].sub_commands@.len() > 0);
                            let k = choose|i: int|
                                first_match(data@, name@, i)
                                    && #[trigger] data@[i].sub_commands@.len() > 0;
                            lemma_first_match_unique(data@, name@, j, k);
                        }
                        let entries = page_entries(d.sub_commands.as_slice(), page);
                        let buttons = create_buttons(d.sub_commands.len(), page);
                        let parent = HelpEntry {
                            name: d.name.clone(),
                            details: d.details.clone(),
                            has_sub_commands: true,
                        };
                        Ok(
                            HelpPage {
                                parent: Some(parent),
                                entries,
                                page,
                                total_pages: total_pages(d.sub_commands.len()),
                                buttons,
                            },
                        )
                    }
                },
            }
        },
    }
}

/// The first entry of `data` that carries `name`, if any.
pub fn find_by_name<'a>(data: &'a [HelpDetails], name: &String) -> (r: Option<&'a HelpDetails>)
    ensures
        match r {
            Some(d) => exists|i: int| first_match(data@, name@, i) && d == &data@[i],
            None => forall|i: int| 0 <= i < data@.len() ==> data@[i].name@ != name@,
        },
{
    let mut i: usize = 0;
    while i < data.len()
        invariant
            i <= data@.len(),
            forall|j: int| 0 <= j < i ==> data@[j].name@ != name@,
        decreases data@.len() - i,
    {
        if data[i].name == *name {
            proof {
                assert(first_match(data@, name@, i as int));
            }
            return Some(&data[i]);
        }
        i = i + 1;
    }
    None
}

} // verus!
