//! Refreshing every stored feed in turn: which feeds there are, and how the numbers of new
//! articles add up.

use vstd::prelude::*;
use crate::models::{Feed, FeedView, Folder, FolderView, feed_views, folder_views};

verus! {

/// The feeds of the folders, folder by folder, in their order.
pub open spec fn feeds_of(folders: Seq<FolderView>) -> Seq<FeedView>
    decreases folders.len(),
{
    if folders.len() == 0 {
        Seq::empty()
    } else {
        feeds_of(folders.drop_last()) + folders.last().feeds
    }
}

/// Lists the feeds of the folders, folder by folder, in their order.
pub fn all_feeds(folders: &Vec<Folder>) -> (feeds: Vec<Feed>)
    ensures
        feed_views(feeds@) == feeds_of(folder_views(folders@)),
{
    let ghost all = folder_views(folders@);
    let mut feeds: Vec<Feed> = Vec::new();
    let mut i: usize = 0;
    assert(all.take(0) =~= Seq::<FolderView>::empty());
    assert(feed_views(feeds@) =~= Seq::<FeedView>::empty());
    while i < folders.len()
        invariant
            i <= folders.len(),
            all == folder_views(folders@),
            feed_views(feeds@) == feeds_of(all.take(i as int)),
        decreases folders.len() - i,
    {
        proof {
            let upto = all.take(i + 1);
            assert(upto.drop_last() == all.take(i as int));
            assert(upto.last() == folders@[i as int]@);
        }
        let ghost before = feed_views(feeds@);
        let folder = &folders[i];
        let mut k: usize = 0;
        assert(feed_views(folder.feeds@).take(0) =~= Seq::<FeedView>::empty());
        while k < folder.feeds.len()
            invariant
                k <= folder.feeds.len(),
                feed_views(feeds@) == before + feed_views(folder.feeds@).take(k as int),
            decreases folder.feeds.len() - k,
        {
            let ghost so_far = feed_views(feeds@);
            let feed = folder.feeds[k].duplicate();
            let ghost made = feed@;
            feeds.push(feed);
            assert(feed_views(feeds@) =~= so_far.push(made));
            assert(feed_views(folder.feeds@).take(k + 1) =~= feed_views(folder.feeds@).take(
                k as int,
            ).push(made));
            k = k + 1;
        }
        assert(feed_views(folder.feeds@).take(folder.feeds.len() as int) == feed_views(
            folder.feeds@,
        ));
        i = i + 1;
    }
    assert(all.take(folders.len() as int) == all);
    feeds
}

/// The number of new articles after one more feed was refreshed: a feed that failed adds
/// nothing, and the number stops at the largest that can be held.
pub open spec fn tallied(total: usize, added: Option<usize>) -> usize {
    match added {
        Some(n) => if total + n > usize::MAX {
            usize::MAX
        } else {
            (total + n) as usize
        },
        None => total,
    }
}

/// Adds the outcome of the refresh of one feed to the number of new articles: the
/// number that the refresh added, or `None` where it failed.
pub fn tally(total: usize, added: Option<usize>) -> (sum: usize)
    ensures
        sum == tallied(total, added),
{
    match added {
        Some(n) => total.saturating_add(n),
        None => total,
    }
}

} // verus!
