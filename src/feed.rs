//! The syndication feed: which submissions the platform currently lists.
//! Only each item's GUID is read; its last `/`-delimited segment is the
//! submission's external id.
use vstd::prelude::*;
use crate::error::LeaderboardError;

verus! {

/// The feed that lists the contest's submissions.
pub const FEED_URL: &'static str = "https://medium.com/feed/my-fair-lighthouse/tagged/mfl-contest";

/// For an RSS document, the GUID value of each item of the channel read from
/// it, in the order of `Channel::items` (`None` for an item without a GUID);
/// `None` if the bytes are not a feed that can be read.
pub uninterp spec fn rss_item_guids(bytes: Seq<u8>) -> Option<Seq<Option<Seq<char>>>>;

/// The views of a sequence of optional strings.
pub open spec fn opt_views(v: Seq<Option<String>>) -> Seq<Option<Seq<char>>> {
    v.map_values(|o: Option<String>| match o {
        Some(s) => Some(s@),
        None => None,
    })
}

/// Relies on rss::Channel::read_from, which reads an RSS channel from the
/// bytes and fails on a malformed document; the GUID value of each item is
/// handed out in the order of `Channel::items`.
#[verifier::external_body]
fn read_item_guids(bytes: &[u8]) -> (r: Option<Vec<Option<String>>>)
    ensures
        match r {
            Some(v) => rss_item_guids(bytes@) == Some(opt_views(v@)),
            None => rss_item_guids(bytes@) is None,
        },
{
    match rss::Channel::read_from(bytes) {
        Ok(channel) => Some(channel.items.into_iter().map(|i| i.guid.map(|g| g.value)).collect()),
        Err(_) => None,
    }
}

/// Where the last `/`-delimited segment of `s` starts.
pub open spec fn segment_start(s: Seq<char>) -> nat
    decreases s.len(),
{
    if s.len() == 0 {
        0
    } else if s.last() == '/' {
        s.len()
    } else {
        segment_start(s.drop_last())
    }
}

/// The last `/`-delimited segment of `s`: all of `s` when it holds no `/`,
/// empty when it ends in one.
pub open spec fn last_segment(s: Seq<char>) -> Seq<char> {
    s.subrange(segment_start(s) as int, s.len() as int)
}

/// The external id named by a GUID: its last path segment.
pub fn id_from_guid(guid: &str) -> (r: String)
    ensures
        r@ == last_segment(guid@),
{
    let n = guid.unicode_len();
    let mut i: usize = n;
    assert(guid@.subrange(0, n as int) =~= guid@);
    while i > 0 && guid.get_char(i - 1) != '/'
        invariant
            n == guid@.len(),
            i <= n,
            segment_start(guid@) == segment_start(guid@.subrange(0, i as int)),
        decreases i,
    {
        assert(guid@.subrange(0, i as int).drop_last() =~= guid@.subrange(0, i - 1));
        i = i - 1;
    }
    proof {
        assert(guid@.subrange(0, n as int) =~= guid@);
        if i > 0 {
            assert(guid@.subrange(0, i as int).last() == '/');
        }
    }
    guid.substring_char(i, n).to_owned()
}

/// The external id of each feed item, in feed order; `None` where the item
/// has no GUID.
pub open spec fn item_ids(guids: Seq<Option<Seq<char>>>) -> Seq<Option<Seq<char>>> {
    guids.map_values(|g: Option<Seq<char>>| match g {
        Some(s) => Some(last_segment(s)),
        None => None,
    })
}

/// Reads the feed in `bytes` and extracts the external id of each item.
/// Fails with `Parse` exactly when the document cannot be read.
pub fn feed_item_ids(bytes: &[u8]) -> (r: Result<Vec<Option<String>>, LeaderboardError>)
    ensures
        match rss_item_guids(bytes@) {
            Some(guids) => r is Ok && opt_views(r->Ok_0@) == item_ids(guids),
            None => r == Err::<Vec<Option<String>>, LeaderboardError>(LeaderboardError::Parse),
        },
{
    let guids = match read_item_guids(bytes) {
        Some(g) => g,
        None => return Err(LeaderboardError::Parse),
    };
    let mut ids: Vec<Option<String>> = Vec::new();
    let mut k: usize = 0;
    while k < guids.len()
        invariant
            k <= guids@.len(),
            opt_views(ids@) =~= item_ids(opt_views(guids@)).subrange(0, k as int),
        decreases guids@.len() - k,
    {
        let id = match &guids[k] {
            Some(g) => Some(id_from_guid(g.as_str())),
            None => None,
        };
        let ghost before = ids@;
        ids.push(id);
        proof {
            assert(opt_views(guids@)[k as int] == match guids@[k as int] {
                Some(g) => Some(g@),
                None => None::<Seq<char>>,
            });
            assert(opt_views(ids@) =~= opt_views(before).push(opt_views(ids@)[k as int]));
        }
        k = k + 1;
    }
    assert(item_ids(opt_views(guids@)).subrange(0, k as int) =~= item_ids(opt_views(guids@)));
    Ok(ids)
}

} // verus!
