//! Scrobble records and the texts built from them: the request query and the
//! console line.
use vstd::prelude::*;

verus! {

/// An ASCII character that percent-encoding leaves as it is: a letter, a
/// digit, or one of `-`, `.`, `_`, `~`.
pub open spec fn is_unreserved(c: char) -> bool {
    ('0' <= c <= '9') || ('A' <= c <= 'Z') || ('a' <= c <= 'z') || c == '-' || c == '.' || c == '_'
        || c == '~'
}

/// The upper-case hexadecimal digit of `d`, for `d` below 16.
pub open spec fn hex_digit(d: nat) -> char {
    if d < 10 {
        ((d + '0' as nat) as u8) as char
    } else {
        ((d - 10 + 'A' as nat) as u8) as char
    }
}

/// A character that may stand in percent-encoded text.
pub open spec fn is_encoded_char(c: char) -> bool {
    is_unreserved(c) || c == '%'
}

/// The UTF-8 bytes of `c`.
pub open spec fn utf8_bytes(c: char) -> Seq<u8> {
    let n = c as u32 as nat;
    if n < 0x80 {
        seq![n as u8]
    } else if n < 0x800 {
        seq![(0xC0 + n / 64) as u8, (0x80 + n % 64) as u8]
    } else if n < 0x10000 {
        seq![(0xE0 + n / 4096) as u8, (0x80 + (n / 64) % 64) as u8, (0x80 + n % 64) as u8]
    } else {
        seq![
            (0xF0 + n / 262144) as u8,
            (0x80 + (n / 4096) % 64) as u8,
            (0x80 + (n / 64) % 64) as u8,
            (0x80 + n % 64) as u8,
        ]
    }
}

/// Each byte of `b` as `%` and two upper-case hexadecimal digits.
pub open spec fn escape_bytes(b: Seq<u8>) -> Seq<char>
    decreases b.len(),
{
    if b.len() == 0 {
        Seq::empty()
    } else {
        seq!['%', hex_digit((b[0] as nat) / 16), hex_digit((b[0] as nat) % 16)] + escape_bytes(
            b.drop_first(),
        )
    }
}

/// Percent-encoding of text: unreserved characters stay, every other one
/// becomes its UTF-8 bytes, each escaped.
pub open spec fn percent_encode(s: Seq<char>) -> Seq<char>
    decreases s.len(),
{
    if s.len() == 0 {
        Seq::empty()
    } else {
        let head = if is_unreserved(s[0]) {
            seq![s[0]]
        } else {
            escape_bytes(utf8_bytes(s[0]))
        };
        head + percent_encode(s.drop_first())
    }
}

/// Every character of `s` may stand in percent-encoded text.
pub open spec fn is_encoded_text(s: Seq<char>) -> bool {
    forall|i: int| 0 <= i < s.len() ==> is_encoded_char(#[trigger] s[i])
}

proof fn lemma_escaped_bytes_are_encoded(b: Seq<u8>)
    ensures
        is_encoded_text(escape_bytes(b)),
    decreases b.len(),
{
    if b.len() > 0 {
        lemma_escaped_bytes_are_encoded(b.drop_first());
        let head = seq!['%', hex_digit((b[0] as nat) / 16), hex_digit((b[0] as nat) % 16)];
        let e = escape_bytes(b);
        assert(e == head + escape_bytes(b.drop_first()));
        assert forall|i: int| 0 <= i < e.len() implies is_encoded_char(#[trigger] e[i]) by {
            if i >= 3 {
                assert(e[i] == escape_bytes(b.drop_first())[i - 3]);
            }
        }
    }
}

/// Percent-encoded text is made of unreserved characters and `%` only.
pub proof fn lemma_percent_encoding_is_encoded_text(s: Seq<char>)
    ensures
        is_encoded_text(percent_encode(s)),
    decreases s.len(),
{
    if s.len() > 0 {
        lemma_percent_encoding_is_encoded_text(s.drop_first());
        let head = if is_unreserved(s[0]) {
            seq![s[0]]
        } else {
            escape_bytes(utf8_bytes(s[0]))
        };
        lemma_escaped_bytes_are_encoded(utf8_bytes(s[0]));
        let e = percent_encode(s);
        let rest = percent_encode(s.drop_first());
        assert(e == head + rest);
        assert forall|i: int| 0 <= i < e.len() implies is_encoded_char(#[trigger] e[i]) by {
            if i >= head.len() {
                assert(e[i] == rest[i - head.len()]);
            } else {
                assert(e[i] == head[i]);
            }
        }
    }
}

/// Percent-encoded text holds none of the characters that delimit a query or
/// its parameters: no space, `&`, `=`, `?`, `/` or `#`.
pub proof fn lemma_encoded_text_has_no_delimiter(s: Seq<char>)
    ensures
        forall|i: int|
            0 <= i < percent_encode(s).len() ==> {
                let c = #[trigger] percent_encode(s)[i];
                c != ' ' && c != '&' && c != '=' && c != '?' && c != '/' && c != '#'
            },
{
    lemma_percent_encoding_is_encoded_text(s);
}

/// Relies on urlencoding's `encode`, which percent-encodes every UTF-8 byte
/// but ASCII letters, digits and `-`, `.`, `_`, `~`, with upper-case digits.
#[verifier::external_body]
pub(crate) fn url_encode(s: &str) -> (r: String)
    ensures
        r@ == percent_encode(s@),
{
    urlencoding::encode(s).into_owned()
}

#[verifier::external_type_specification]
#[verifier::external_body]
pub struct ExSystemTime(std::time::SystemTime);

/// Relies on `SystemTime::now`: the system clock's reading, of which nothing
/// is known in advance.
#[verifier::external_body]
fn system_time_now() -> (r: std::time::SystemTime) {
    std::time::SystemTime::now()
}

/// Relies on `SystemTime::duration_since(UNIX_EPOCH)`: the time elapsed since
/// the Unix epoch, `None` for a time before it.
#[verifier::external_body]
fn since_unix_epoch(t: std::time::SystemTime) -> (r: Option<core::time::Duration>) {
    t.duration_since(std::time::UNIX_EPOCH).ok()
}

/// Relies on `Duration::as_secs`: the whole seconds of `d`.
#[verifier::external_body]
fn whole_seconds(d: &core::time::Duration) -> (r: u64) {
    d.as_secs()
}

/// The whole seconds since the Unix epoch by the system clock; a clock set
/// before the epoch reads as 0.
pub fn unix_seconds_now() -> (r: u64) {
    match since_unix_epoch(system_time_now()) {
        Some(d) => whole_seconds(&d),
        None => 0,
    }
}

/// The decimal digit of `d`, for `d` below 10.
pub open spec fn digit_char(d: nat) -> char {
    ((d + '0' as nat) as u8) as char
}

/// The decimal text of `n`, without leading zeros.
pub open spec fn decimal(n: nat) -> Seq<char>
    decreases n,
{
    if n < 10 {
        seq![digit_char(n)]
    } else {
        decimal(n / 10) + seq![digit_char(n % 10)]
    }
}

/// The decimal text of a number is non-empty and made of the digits `0` to
/// `9` only, so a query's timestamp parameter reads back as that number.
pub proof fn lemma_decimal_is_digits(n: nat)
    ensures
        decimal(n).len() > 0,
        forall|i: int| 0 <= i < decimal(n).len() ==> '0' <= #[trigger] decimal(n)[i] <= '9',
    decreases n,
{
    if n >= 10 {
        lemma_decimal_is_digits(n / 10);
        let d = decimal(n);
        let head = decimal(n / 10);
        assert(d == head + seq![digit_char(n % 10)]);
        assert forall|i: int| 0 <= i < d.len() implies '0' <= #[trigger] d[i] <= '9' by {
            if i < head.len() {
                assert(d[i] == head[i]);
            }
        }
    }
}

fn digit_text(d: u64) -> (r: &'static str)
    requires
        d < 10,
    ensures
        r@ == seq![digit_char(d as nat)],
{
    proof {
        reveal_strlit("0");
        reveal_strlit("1");
        reveal_strlit("2");
        reveal_strlit("3");
        reveal_strlit("4");
        reveal_strlit("5");
        reveal_strlit("6");
        reveal_strlit("7");
        reveal_strlit("8");
        reveal_strlit("9");
    }
    match d {
        0 => "0",
        1 => "1",
        2 => "2",
        3 => "3",
        4 => "4",
        5 => "5",
        6 => "6",
        7 => "7",
        8 => "8",
        _ => "9",
    }
}

/// Appends the decimal text of `n` to `out`.
pub fn push_decimal(out: &mut String, n: u64)
    ensures
        final(out)@ == old(out)@ + decimal(n as nat),
    decreases n,
{
    if n >= 10 {
        push_decimal(out, n / 10);
    }
    out.append(digit_text(n % 10));
    assert(out@ =~= old(out)@ + decimal(n as nat));
}

/// The query of a scrobble request, from the encoded names and the timestamp.
pub open spec fn query_text(
    artist: Seq<char>,
    track: Seq<char>,
    album: Seq<char>,
    timestamp: nat,
) -> Seq<char> {
    "/2.0?method=track.scrobble&artist="@ + artist + "&track="@ + track + "&album="@ + album
        + "&timestamp="@ + decimal(timestamp)
}

/// The console line of a scrobble.
pub open spec fn line_text(artist: Seq<char>, album: Seq<char>, track: Seq<char>) -> Seq<char> {
    track + " on "@ + album + " by "@ + artist
}

/// One playback report: an artist, an album and a track, borrowed from the
/// pools they were drawn from.
pub struct Scrobble<'a> {
    pub artist: &'a str,
    pub album: &'a str,
    pub track: &'a str,
}

impl<'a> Scrobble<'a> {
    /// The request path and query for this scrobble, stamped with `timestamp`.
    pub fn as_query_at(&self, timestamp: u64) -> (r: String)
        ensures
            r@ == query_text(
                percent_encode(self.artist@),
                percent_encode(self.track@),
                percent_encode(self.album@),
                timestamp as nat,
            ),
    {
        let mut q = String::from_str("/2.0?method=track.scrobble&artist=");
        let artist = url_encode(self.artist);
        q.append(artist.as_str());
        q.append("&track=");
        let track = url_encode(self.track);
        q.append(track.as_str());
        q.append("&album=");
        let album = url_encode(self.album);
        q.append(album.as_str());
        q.append("&timestamp=");
        push_decimal(&mut q, timestamp);
        q
    }

    /// The request path and query for this scrobble, stamped with the current
    /// Unix time in seconds.
    pub fn as_query(&self) -> (r: String)
        ensures
            exists|t: u64|
                r@ == query_text(
                    percent_encode(self.artist@),
                    percent_encode(self.track@),
                    percent_encode(self.album@),
                    t as nat,
                ),
    {
        let now = unix_seconds_now();
        self.as_query_at(now)
    }

    /// The console line `"<track> on <album> by <artist>"`.
    pub fn as_line(&self) -> (r: String)
        ensures
            r@ == line_text(self.artist@, self.album@, self.track@),
    {
        let mut line = String::from_str(self.track);
        line.append(" on ");
        line.append(self.album);
        line.append(" by ");
        line.append(self.artist);
        line
    }
}

} // verus!
