//! Decisions around the hosting service: paging limits, listings that must
//! hold at most one item, and whether a configuration file needs writing.

use vstd::prelude::*;

verus! {

/// What to do with the configuration file of a repository.
#[derive(Debug, Clone, Copy, PartialEq, Eq)]
pub enum PublishStep {
    /// The file already holds the new content.
    Unchanged,
    /// The file exists with other content: replace it.
    UpdateFile,
    /// There is no file: create it.
    CreateFile,
}

/// What to do with a repository's configuration file, given the file found
/// (`None` where there is none; inside, its decoded text where it could be
/// decoded) and the content it should hold.
pub fn publish_step(existing: &Option<Option<String>>, content: &String) -> (r: PublishStep)
    ensures
        r == (match existing {
            None => PublishStep::CreateFile,
            Some(Some(text)) => if text@ == content@ {
                PublishStep::Unchanged
            } else {
                PublishStep::UpdateFile
            },
            Some(None) => PublishStep::UpdateFile,
        }),
{
    match existing {
        None => PublishStep::CreateFile,
        Some(Some(text)) => if *text == *content {
            PublishStep::Unchanged
        } else {
            PublishStep::UpdateFile
        },
        Some(None) => PublishStep::UpdateFile,
    }
}

/// The most pages of results fetched from one listing.
pub const MAX_PAGES: u32 = 5;

/// What to do after a page of a listing was fetched.
#[derive(Debug, Clone, Copy, PartialEq, Eq)]
pub enum PageStep {
    /// The page was empty: the listing is complete.
    Done,
    /// Fetch this page next.
    Next(u32),
    /// The page limit is reached: give up rather than exhaust the rate limit.
    LimitReached,
}

/// What follows page `page` (counted from 1) of a listing, given whether it
/// held no items.
pub fn page_step(page: u32, was_empty: bool) -> (r: PageStep)
    ensures
        was_empty ==> r == PageStep::Done,
        !was_empty && page + 1 <= MAX_PAGES ==> r == PageStep::Next((page + 1) as u32),
        !was_empty && page + 1 > MAX_PAGES ==> r == PageStep::LimitReached,
{
    if was_empty {
        PageStep::Done
    } else if page < MAX_PAGES {
        PageStep::Next(page + 1)
    } else {
        PageStep::LimitReached
    }
}

/// The only item of a listing, `Ok(None)` for an empty one, and `Err` with the
/// count where there are several.
pub fn at_most_one<T>(items: Vec<T>) -> (r: Result<Option<T>, usize>)
    ensures
        items@.len() == 0 ==> r == Ok::<Option<T>, usize>(None),
        items@.len() == 1 ==> r == Ok::<Option<T>, usize>(Some(items@[0])),
        items@.len() > 1 ==> r == Err::<Option<T>, usize>(items@.len() as usize),
{
    let n = items.len();
    if n == 0 {
        Ok(None)
    } else if n > 1 {
        Err(n)
    } else {
        let mut items = items;
        Ok(items.pop())
    }
}

} // verus!
