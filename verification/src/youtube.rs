//! The latest video or short of a YouTube channel, as listed by `yt-dlp`.
use vstd::prelude::*;
use crate::reply::HttpError;

verus! {

/// The channels whose videos are served.
pub open spec fn served_channel(channel: Seq<char>) -> bool {
    channel == "raixssa"@ || channel == "elakstriker"@
}

/// Whether two strings hold the same characters.
pub fn same_text(a: &str, b: &str) -> (r: bool)
    ensures
        r == (a@ == b@),
{
    let n = a.unicode_len();
    if b.unicode_len() != n {
        return false;
    }
    let mut i: usize = 0;
    while i < n
        invariant
            n == a@.len(),
            n == b@.len(),
            i <= n,
            forall|k: int| 0 <= k < i ==> a@[k] == b@[k],
        decreases n - i,
    {
        if a.get_char(i) != b.get_char(i) {
            return false;
        }
        i = i + 1;
    }
    assert(a@ =~= b@);
    true
}

/// Whether the videos of `channel` are served.
pub fn check_your_mom(channel: &str) -> (r: Option<()>)
    ensures
        r is Some <==> served_channel(channel@),
{
    if same_text(channel, "raixssa") || same_text(channel, "elakstriker") {
        Some(())
    } else {
        None
    }
}

/// Which list of a channel is read.
#[derive(PartialEq, Eq, Structural, Clone, Copy, Debug)]
pub enum Feed {
    Videos,
    Shorts,
}

/// The page listing a channel's videos or shorts.
pub open spec fn feed_url(channel: Seq<char>, feed: Feed) -> Seq<char> {
    "https://www.youtube.com/@"@ + channel + match feed {
        Feed::Videos => "/videos"@,
        Feed::Shorts => "/shorts"@,
    }
}

/// The page to read for the latest entry of `feed` on `channel`, if the
/// channel is served.
pub fn last_entry_url(channel: &str, feed: Feed) -> (r: Result<String, HttpError>)
    ensures
        !served_channel(channel@) ==> r == Err::<String, HttpError>(HttpError::BadRequest),
        served_channel(channel@) ==> (r matches Ok(u) && u@ == feed_url(channel@, feed)),
{
    if check_your_mom(channel).is_none() {
        return Err(HttpError::BadRequest);
    }
    let mut url = "https://www.youtube.com/@".to_owned();
    url.append(channel);
    match feed {
        Feed::Videos => url.append("/videos"),
        Feed::Shorts => url.append("/shorts"),
    }
    Ok(url)
}

/// The page to read for the latest video of `channel`.
pub fn get_last_video(channel: &str) -> (r: Result<String, HttpError>)
    ensures
        !served_channel(channel@) ==> r == Err::<String, HttpError>(HttpError::BadRequest),
        served_channel(channel@) ==> (r matches Ok(u) && u@ == feed_url(channel@, Feed::Videos)),
{
    last_entry_url(channel, Feed::Videos)
}

/// The page to read for the latest short of `channel`.
pub fn get_last_short(channel: &str) -> (r: Result<String, HttpError>)
    ensures
        !served_channel(channel@) ==> r == Err::<String, HttpError>(HttpError::BadRequest),
        served_channel(channel@) ==> (r matches Ok(u) && u@ == feed_url(channel@, Feed::Shorts)),
{
    last_entry_url(channel, Feed::Shorts)
}

/// The number of bytes of `b` before its first newline byte (all of them when
/// there is none).
pub open spec fn line_len(b: Seq<u8>) -> nat
    decreases b.len(),
{
    if b.len() == 0 {
        0
    } else if b[0] == 10 {
        0
    } else {
        1 + line_len(b.drop_first())
    }
}

/// The first line of the output `b`, as reading lines gives it: the bytes
/// before the first newline, without a carriage return that ends them just
/// before that newline. Empty output has no line.
pub open spec fn first_line_of(b: Seq<u8>) -> Option<Seq<u8>> {
    if b.len() == 0 {
        None
    } else {
        let n = line_len(b);
        let line = b.take(n as int);
        if n < b.len() && n > 0 && b[n - 1] == 13 {
            Some(line.drop_last())
        } else {
            Some(line)
        }
    }
}

proof fn lemma_line_len_bound(b: Seq<u8>)
    ensures
        line_len(b) <= b.len(),
        line_len(b) < b.len() ==> b[line_len(b) as int] == 10,
        forall|k: int| 0 <= k < line_len(b) ==> b[k] != 10,
    decreases b.len(),
{
    if b.len() > 0 && b[0] != 10 {
        lemma_line_len_bound(b.drop_first());
        assert forall|k: int| 0 <= k < line_len(b) implies b[k] != 10 by {
            if k > 0 {
                assert(b[k] == b.drop_first()[k - 1]);
            }
        }
    }
}

/// The first line never holds a newline byte, and comes from the start of the output.
pub proof fn law_first_line_has_no_newline(b: Seq<u8>)
    ensures
        first_line_of(b) is None <==> b.len() == 0,
        first_line_of(b) matches Some(l) ==> l.len() <= b.len() && l == b.take(l.len() as int)
            && forall|k: int| 0 <= k < l.len() ==> l[k] != 10,
        first_line_of(b) matches Some(l) ==> {
            ||| l.len() == b.len()
            ||| b[l.len() as int] == 10
            ||| l.len() + 1 < b.len() && b[l.len() as int] == 13 && b[l.len() as int + 1] == 10
        },
{
    lemma_line_len_bound(b);
    if b.len() > 0 {
        let n = line_len(b);
        let l = first_line_of(b)->0;
        assert(l == b.take(l.len() as int));
        assert forall|k: int| 0 <= k < l.len() implies l[k] != 10 by {
            assert(l[k] == b[k]);
        }
    }
}

/// The first line of the output `out`.
pub fn first_line(out: &Vec<u8>) -> (r: Option<Vec<u8>>)
    ensures
        match first_line_of(out@) {
            Some(l) => r matches Some(v) && v@ == l,
            None => r is None,
        },
{
    let n = out.len();
    if n == 0 {
        return None;
    }
    let mut line: Vec<u8> = Vec::new();
    let mut i: usize = 0;
    assert(out@.skip(0) =~= out@);
    while i < n && out[i] != 10
        invariant
            n == out@.len(),
            i <= n,
            line@ == out@.take(i as int),
            line_len(out@) == i + line_len(out@.skip(i as int)),
        decreases n - i,
    {
        assert(out@.skip(i as int).drop_first() =~= out@.skip(i + 1));
        line.push(out[i]);
        i = i + 1;
        assert(line@ =~= out@.take(i as int));
    }
    assert(line_len(out@) == i) by {
        if i < n {
            assert(out@.skip(i as int)[0] == 10);
        }
    }
    if i < n && i > 0 && out[i - 1] == 13 {
        line.pop();
    }
    Some(line)
}

/// The fields of a listed entry that the answer shows.
pub struct Entry {
    pub title: String,
    pub url: String,
}

/// The answer for the latest entry, given what reading it gave (`None` when
/// running or reading `yt-dlp` failed): its title and address.
pub fn entry_reply(fetched: Option<&Entry>) -> (r: Result<String, HttpError>)
    ensures
        match fetched {
            None => r == Err::<String, HttpError>(HttpError::InternalServerError),
            Some(e) => r matches Ok(s) && s@ == e.title@ + " - "@ + e.url@,
        },
{
    match fetched {
        None => Err(HttpError::InternalServerError),
        Some(e) => {
            let mut s = e.title.clone();
            s.append(" - ");
            s.append(e.url.as_str());
            Ok(s)
        },
    }
}

} // verus!
