use crate::text::{join2, join3};
use vstd::prelude::*;
use vstd::string::{StrSliceExecFns, StringExecFns};

verus! {

/// Whether Unicode counts a character as numeric.
pub uninterp spec fn is_numeric(c: char) -> bool;

/// Asks `char::is_numeric`. The answer depends on the character alone.
#[verifier::external_body]
fn char_is_numeric(c: char) -> (r: bool)
    ensures
        r == is_numeric(c),
{
    c.is_numeric()
}

/// Every character of the text is numeric.
pub open spec fn all_numeric(text: Seq<char>) -> bool {
    forall|i: int| 0 <= i < text.len() ==> is_numeric(#[trigger] text[i])
}

/// The place of the last colon at or before `upto - 1`, if there is one.
pub open spec fn last_colon(text: Seq<char>, upto: int) -> Option<int>
    decreases upto,
{
    if upto <= 0 {
        None
    } else if text[upto - 1] == ':' {
        Some(upto - 1)
    } else {
        last_colon(text, upto - 1)
    }
}

/// What follows the last colon of a reference; nothing where it has no
/// colon.
pub open spec fn spec_reference_tail(image: Seq<char>) -> Seq<char> {
    match last_colon(image, image.len() as int) {
        Some(at) => image.skip(at + 1),
        None => Seq::empty(),
    }
}

/// An image reference split into name and tag, given whether what follows
/// its last colon is all numeric. That tail is the tag unless it holds a
/// slash or is all numeric (it is then part of a registry address); without a
/// tag the tag is `latest` and the name is the whole reference.
pub open spec fn spec_split_reference(image: Seq<char>, tail_is_numeric: bool) -> (
    Seq<char>,
    Seq<char>,
) {
    match last_colon(image, image.len() as int) {
        Some(at) => {
            let tag = image.skip(at + 1);
            if !tag.contains('/') && !tail_is_numeric {
                (image.take(at), tag)
            } else {
                (image, "latest"@)
            }
        },
        None => (image, "latest"@),
    }
}

/// An image reference split into name and tag. A tail without characters
/// counts as all numeric, so a reference that ends in a colon has no tag.
pub open spec fn spec_parse_image_tag(image: Seq<char>) -> (Seq<char>, Seq<char>) {
    spec_split_reference(image, all_numeric(spec_reference_tail(image)))
}

/// The reference that names an image with its tag.
pub open spec fn spec_image_reference(image: Seq<char>) -> Seq<char> {
    spec_parse_image_tag(image).0 + ":"@ + spec_parse_image_tag(image).1
}

/// The place of the last colon as a count of characters.
pub open spec fn colon_place(at: Option<usize>) -> Option<int> {
    match at {
        Some(at) => Some(at as int),
        None => None,
    }
}

fn find_last_colon(image: &str) -> (r: Option<usize>)
    ensures
        colon_place(r) == last_colon(image@, image@.len() as int),
        r matches Some(at) ==> at < image@.len(),
{
    let n = image.unicode_len();
    let mut at: usize = n;
    while at > 0 && image.get_char(at - 1) != ':'
        invariant
            at <= n,
            n == image@.len(),
            last_colon(image@, n as int) == last_colon(image@, at as int),
        decreases at,
    {
        at -= 1;
    }
    if at == 0 {
        None
    } else {
        Some(at - 1)
    }
}

/// What follows the last colon of a reference.
pub fn reference_tail(image: &str) -> (tail: &str)
    ensures
        tail@ == spec_reference_tail(image@),
{
    match find_last_colon(image) {
        Some(at) => {
            let n = image.unicode_len();
            let tail = image.substring_char(at + 1, n);
            assert(tail@ =~= image@.skip(at as int + 1));
            tail
        },
        None => {
            let tail = image.substring_char(0, 0);
            assert(tail@ =~= Seq::empty());
            tail
        },
    }
}

/// Tells whether every character of a text is numeric.
pub fn text_is_numeric(text: &str) -> (r: bool)
    ensures
        r == all_numeric(text@),
{
    let n = text.unicode_len();
    let mut i: usize = 0;
    while i < n
        invariant
            i <= n,
            n == text@.len(),
            forall|k: int| 0 <= k < i ==> is_numeric(#[trigger] text@[k]),
        decreases n - i,
    {
        if !char_is_numeric(text.get_char(i)) {
            return false;
        }
        i += 1;
    }
    true
}

fn text_has_slash(text: &str) -> (r: bool)
    ensures
        r == text@.contains('/'),
{
    let n = text.unicode_len();
    let mut i: usize = 0;
    while i < n
        invariant
            i <= n,
            n == text@.len(),
            forall|k: int| 0 <= k < i ==> text@[k] != '/',
        decreases n - i,
    {
        if text.get_char(i) == '/' {
            return true;
        }
        i += 1;
    }
    false
}

/// Splits an image reference into name and tag, told whether what follows
/// its last colon is all numeric.
pub fn split_reference(image: &str, tail_is_numeric: bool) -> (r: (String, String))
    ensures
        (r.0@, r.1@) == spec_split_reference(image@, tail_is_numeric),
{
    match find_last_colon(image) {
        Some(at) => {
            let n = image.unicode_len();
            let tag = image.substring_char(at + 1, n);
            assert(tag@ =~= image@.skip(at as int + 1));
            if !text_has_slash(tag) && !tail_is_numeric {
                let name = image.substring_char(0, at);
                assert(name@ =~= image@.take(at as int));
                (String::from_str(name), String::from_str(tag))
            } else {
                (String::from_str(image), String::from_str("latest"))
            }
        },
        None => (String::from_str(image), String::from_str("latest")),
    }
}

/// Parse image name and tag from image string.
pub fn parse_image_tag(image: &str) -> (r: (String, String))
    ensures
        (r.0@, r.1@) == spec_parse_image_tag(image@),
{
    let numeric = text_is_numeric(reference_tail(image));
    split_reference(image, numeric)
}

/// The reference under which an image is looked up: its name, a colon and
/// its tag.
pub fn image_reference(image: &str) -> (r: String)
    ensures
        r@ == spec_image_reference(image@),
{
    let (name, tag) = parse_image_tag(image);
    join3(name.as_str(), ":", tag.as_str())
}

/// One piece of news from a pull that is under way.
#[derive(Debug, Clone, PartialEq, Eq)]
pub enum PullEvent {
    /// The pull goes on.
    Progress,
    /// The registry reports an error.
    Error(String),
    /// Reading the news failed.
    Failed(String),
}

/// What a piece of news means for a pull: it goes on, or it ends with the
/// words of the failure.
pub open spec fn spec_pull_step(image: Seq<char>, event: PullEvent) -> Result<(), Seq<char>> {
    match event {
        PullEvent::Progress => Ok(()),
        PullEvent::Error(error) => Err("Failed to pull image: "@ + error@),
        PullEvent::Failed(error) => Err("Failed to pull image "@ + image + ": "@ + error@),
    }
}

/// Decides on a piece of news whether the pull of `image` goes on.
pub fn pull_step(image: &str, event: &PullEvent) -> (r: Result<(), String>)
    ensures
        match r {
            Ok(()) => spec_pull_step(image@, *event) == Ok::<(), Seq<char>>(()),
            Err(e) => spec_pull_step(image@, *event) == Err::<(), Seq<char>>(e@),
        },
{
    match event {
        PullEvent::Progress => Ok(()),
        PullEvent::Error(error) => Err(join2("Failed to pull image: ", error.as_str())),
        PullEvent::Failed(error) => {
            let mut message = join3("Failed to pull image ", image, ": ");
            message.append(error.as_str());
            Err(message)
        },
    }
}

} // verus!
