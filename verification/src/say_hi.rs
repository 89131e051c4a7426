//! The greeting command: picks one of the configured greetings at random
//! and substitutes the user's sanitised display name into its title.

use crate::random::pick_index;
use crate::text::{replace_all, spec_replaced};
use vstd::prelude::*;

verus! {

/// One configured greeting: a title template and the image shown with it.
#[derive(Debug)]
pub struct SayHiData {
    pub message: String,
    pub gif: String,
}

/// The parts of a greeting reply: the title with `<name>` replaced by the
/// given display name, and the image address, both from one randomly
/// chosen greeting.
pub fn say_hi_message(data: &[SayHiData], name: &str) -> (r: (String, String))
    requires
        data@.len() > 0,
    ensures
        exists|i: int|
            0 <= i < data@.len() && r.0@ == spec_replaced(
                (#[trigger] data@[i]).message@,
                "<name>"@,
                name@,
            ) && r.1@ == data@[i].gif@,
{
    let i = pick_index(data.len());
    let title = replace_all(data[i].message.as_str(), "<name>", name);
    let gif = data[i].gif.clone();
    (title, gif)
}

} // verus!
