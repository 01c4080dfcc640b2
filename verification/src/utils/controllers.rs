//! The clipboard watch: the decision that starts a broadcast.

use vstd::prelude::*;
use vstd::string::*;

verus! {

/// One turn of the clipboard watch: compares what the clipboard holds now
/// with what was seen last. Content that differs becomes the new baseline and
/// is returned for broadcast; content that is the same starts nothing.
pub fn start_pooling_clipboard(
    content: &mut String,
    new_content: String,
) -> (changed: Option<String>)
    ensures
        final(content)@ == new_content@,
        changed is Some <==> old(content)@ != new_content@,
        changed is Some ==> changed->Some_0@ == new_content@,
{
    if *content != new_content {
        *content = new_content.clone();
        Some(new_content)
    } else {
        None
    }
}

} // verus!
