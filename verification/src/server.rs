use vstd::prelude::*;
use crate::level_stats::Vote;
use crate::main_menu::LevelOrdering;
use crate::text::{push_all, push_char};
use vstd::string::StringSliceAdditionalSpecFns;

verus! {

/// A 32-byte token (auth or session), of which the first eight bytes of an
/// auth token hold its number in the server's table.
pub type Token = [u8; 32];

/// The first eight bytes of a token read as a number, least significant byte
/// first.
pub open spec fn le_word(b: Seq<u8>) -> u64 {
    (b[0] as u64) | ((b[1] as u64) << 8u64) | ((b[2] as u64) << 16u64) | ((b[3] as u64) << 24u64) | ((b[4] as u64)
        << 32u64) | ((b[5] as u64) << 40u64) | ((b[6] as u64) << 48u64) | ((b[7] as u64) << 56u64)
}

/// Byte `k` of a number, least significant first.
pub open spec fn byte_of(v: u64, k: u64) -> u8 {
    ((v >> (8 * k)) & 0xff) as u8
}

/// The number of an auth token in the server's table: its first eight bytes,
/// least significant first (the byte order of the machines the server runs on).
pub fn start_of(token: &Token) -> (r: i64)
    ensures
        r == le_word(token@) as i64,
{
    let v: u64 = (token[0] as u64) | ((token[1] as u64) << 8u64) | ((token[2] as u64) << 16u64) | ((token[3] as u64)
        << 24u64) | ((token[4] as u64) << 32u64) | ((token[5] as u64) << 40u64) | ((token[6] as u64) << 48u64) | ((
    token[7] as u64) << 56u64);
    v as i64
}

/// Writes a token's number into its first eight bytes, least significant
/// first; the other bytes stay.
pub fn token_with_start(token: &Token, start: i64) -> (r: Token)
    ensures
        forall|k: int| 0 <= k < 8 ==> r@[k] == byte_of(start as u64, k as u64),
        forall|k: int| 8 <= k < 32 ==> r@[k] == token@[k],
{
    let v = start as u64;
    let mut r = *token;
    let mut k: usize = 0;
    while k < 8
        invariant
            k <= 8,
            v == start as u64,
            forall|j: int| 0 <= j < k ==> r@[j] == byte_of(v, j as u64),
            forall|j: int| 8 <= j < 32 ==> r@[j] == token@[j],
        decreases 8 - k,
    {
        r[k] = ((v >> (8 * k as u64)) & 0xff) as u8;
        k = k + 1;
    }
    r
}

/// Reading back the number written into a token gives the number: the table
/// finds every token the server hands out.
pub proof fn law_token_number_round_trip(token: Token, start: i64, written: Token)
    requires
        forall|k: int| 0 <= k < 8 ==> written@[k] == byte_of(start as u64, k as u64),
    ensures
        le_word(written@) as i64 == start,
{
    let v = start as u64;
    let b0 = written@[0];
    let b1 = written@[1];
    let b2 = written@[2];
    let b3 = written@[3];
    let b4 = written@[4];
    let b5 = written@[5];
    let b6 = written@[6];
    let b7 = written@[7];
    assert(b0 == byte_of(v, 0));
    assert(b1 == byte_of(v, 1));
    assert(b2 == byte_of(v, 2));
    assert(b3 == byte_of(v, 3));
    assert(b4 == byte_of(v, 4));
    assert(b5 == byte_of(v, 5));
    assert(b6 == byte_of(v, 6));
    assert(b7 == byte_of(v, 7));
    assert(((b0 as u64) | ((b1 as u64) << 8u64) | ((b2 as u64) << 16u64) | ((b3 as u64) << 24u64) | ((b4 as u64)
        << 32u64) | ((b5 as u64) << 40u64) | ((b6 as u64) << 48u64) | ((b7 as u64) << 56u64)) == v) by (bit_vector)
        requires
            b0 == ((v >> 0u64) & 0xff) as u8,
            b1 == ((v >> 8u64) & 0xff) as u8,
            b2 == ((v >> 16u64) & 0xff) as u8,
            b3 == ((v >> 24u64) & 0xff) as u8,
            b4 == ((v >> 32u64) & 0xff) as u8,
            b5 == ((v >> 40u64) & 0xff) as u8,
            b6 == ((v >> 48u64) & 0xff) as u8,
            b7 == ((v >> 56u64) & 0xff) as u8,
    ;
    assert((v as i64) == start) by (bit_vector)
        requires
            v == start as u64,
    ;
}

/// Whether the token a client sends is the one stored for its number and user:
/// the stored bytes (if any row was found) are exactly the token's.
pub fn stored_token_matches(token: &Token, stored: Option<&[u8]>) -> (r: bool)
    ensures
        r == (stored matches Some(b) && b@ == token@),
{
    match stored {
        None => false,
        Some(b) => {
            if b.len() != 32 {
                assert(b@.len() != token@.len());
                return false;
            }
            let mut k: usize = 0;
            while k < 32
                invariant
                    k <= 32,
                    stored == Some(b),
                    b@.len() == 32,
                    forall|j: int| 0 <= j < k ==> b@[j] == token@[j],
                decreases 32 - k,
            {
                if b[k] != token[k] {
                    assert(b@[k as int] != token@[k as int]);
                    return false;
                }
                k = k + 1;
            }
            assert(b@ =~= token@);
            true
        },
    }
}

/// What the server answers a log-in with.
#[derive(Debug, Clone, Copy, PartialEq, Eq, Structural)]
pub enum LoginAnswer {
    /// The request could not be read.
    BadData,
    /// The client is older than the server accepts.
    OutOfDate,
    /// The token is unknown, or the player must log in with Steam.
    BadToken,
    /// Go on: check the token sent against the stored one.
    CheckToken,
    /// Go on: see whether the player is new.
    CheckNewPlayer,
}

/// The first decision on a log-in request: whether it could be read, whether
/// the client is recent enough, and whether it brings a token.
pub fn login_first_step(decoded: bool, version: u32, required: u32, has_token: bool) -> (r: LoginAnswer)
    ensures
        r == (if !decoded {
            LoginAnswer::BadData
        } else if version < required {
            LoginAnswer::OutOfDate
        } else if has_token {
            LoginAnswer::CheckToken
        } else {
            LoginAnswer::CheckNewPlayer
        }),
{
    if !decoded {
        LoginAnswer::BadData
    } else if version < required {
        LoginAnswer::OutOfDate
    } else if has_token {
        LoginAnswer::CheckToken
    } else {
        LoginAnswer::CheckNewPlayer
    }
}

/// What a log-in without a token does, given how many players have the id.
#[derive(Debug, Clone, Copy, PartialEq, Eq, Structural)]
pub enum NewPlayerStep {
    /// A new player: create them and hand out a first token.
    Create,
    /// The player exists: they must prove who they are with Steam.
    BadToken,
    /// The count makes no sense: answer with a server error.
    Fault,
}

/// Decides a log-in without a token from the number of players with the id.
pub fn new_player_step(count: i64) -> (r: NewPlayerStep)
    ensures
        r == (if count == 0 {
            NewPlayerStep::Create
        } else if count == 1 {
            NewPlayerStep::BadToken
        } else {
            NewPlayerStep::Fault
        }),
{
    if count == 0 {
        NewPlayerStep::Create
    } else if count == 1 {
        NewPlayerStep::BadToken
    } else {
        NewPlayerStep::Fault
    }
}

/// The message of the page the browser shows after a Steam log-in, by outcome
/// and language (only language 1 has text).
pub fn openid_message(success: bool, lang: u8) -> (r: &'static str)
    ensures
        r@ == (if lang != 1 {
            ""@
        } else if success {
            "Logged in successfully.<br>You may return to the game."@
        } else {
            "Unable to log you in."@
        }),
{
    if lang != 1 {
        ""
    } else if success {
        "Logged in successfully.<br>You may return to the game."
    } else {
        "Unable to log you in."
    }
}

/// Whether a token waits for its Steam log-in: it exists and belongs to no
/// player yet (user 0).
pub fn token_pending(user: Option<i64>) -> (r: bool)
    ensures
        r == (user == Some(0i64)),
{
    match user {
        Some(u) => u == 0,
        None => false,
    }
}

/// How a vote is stored: 1 for a like, 0 for none.
pub fn vote_code(v: Vote) -> (r: u8)
    ensures
        r == (if v == Vote::Like { 1u8 } else { 0u8 }),
{
    match v {
        Vote::Like => 1,
        Vote::NoVote => 0,
    }
}

/// The vote a stored code stands for: 1 is a like, anything else none.
pub fn vote_from_code(code: i64) -> (r: Vote)
    ensures
        r == (if code == 1 { Vote::Like } else { Vote::NoVote }),
{
    if code == 1 {
        Vote::Like
    } else {
        Vote::NoVote
    }
}

/// How a changed vote moves the likes of a level: one up for a like, one down
/// for taking it back.
pub fn vote_delta(v: Vote) -> (r: i32)
    ensures
        r == (if v == Vote::Like { 1i32 } else { -1i32 }),
{
    match v {
        Vote::Like => 1,
        Vote::NoVote => -1,
    }
}

/// A vote that is stored and then read back is the same vote.
pub proof fn law_vote_code_round_trip(v: Vote)
    ensures
        (if (if v == Vote::Like { 1u8 } else { 0u8 }) == 1 { Vote::Like } else { Vote::NoVote }) == v,
{
}

/// Whether a new time replaces the stored best of a player (or becomes it,
/// when there is none): it must be faster.
pub open spec fn spec_new_best(time: u32, stored: Option<u32>) -> bool {
    match stored {
        None => true,
        Some(t) => time < t,
    }
}

/// Whether a new time replaces a stored best.
pub fn new_best(time: u32, stored: Option<u32>) -> (r: bool)
    ensures
        r == spec_new_best(time, stored),
{
    match stored {
        None => true,
        Some(t) => time < t,
    }
}

/// Whether a new time takes the world record of a level: it beats the record.
pub fn takes_record(time: u32, record: u32) -> (r: bool)
    ensures
        r == (record > time),
{
    record > time
}

/// A stored best only ever improves: whatever times come in, in any order, the
/// best kept is never slower than before.
pub proof fn law_best_never_worsens(time: u32, stored: u32)
    ensures
        (if spec_new_best(time, Some(stored)) { time } else { stored }) <= stored,
{
}

/// The lowercase hexadecimal digit of a value below 16.
pub open spec fn hex_digit(d: nat) -> char {
    if d < 10 {
        (('0' as u32) + d) as char
    } else {
        (('a' as u32) + (d - 10)) as char
    }
}

/// The lowercase hexadecimal digits of a number, without leading zeros.
pub open spec fn hex(n: nat) -> Seq<char>
    decreases n,
{
    if n < 16 {
        seq![hex_digit(n)]
    } else {
        hex(n / 16).push(hex_digit(n % 16))
    }
}

/// The hexadecimal digits of a number, with leading zeros up to six digits
/// (as `{:06x}` writes it).
pub open spec fn hex6(n: nat) -> Seq<char> {
    Seq::new(if hex(n).len() < 6 { (6 - hex(n).len()) as nat } else { 0 }, |_k: int| '0') + hex(n)
}

fn hex_char(d: u32) -> (c: char)
    requires
        d < 16,
    ensures
        c == hex_digit(d as nat),
{
    match d {
        0 => '0',
        1 => '1',
        2 => '2',
        3 => '3',
        4 => '4',
        5 => '5',
        6 => '6',
        7 => '7',
        8 => '8',
        9 => '9',
        10 => 'a',
        11 => 'b',
        12 => 'c',
        13 => 'd',
        14 => 'e',
        _ => 'f',
    }
}

fn push_hex(s: &mut String, n: u32)
    ensures
        final(s)@ == old(s)@ + hex(n as nat),
    decreases n,
{
    if n < 16 {
        push_char(s, hex_char(n));
        assert(s@ =~= old(s)@ + hex(n as nat));
    } else {
        push_hex(s, n / 16);
        push_char(s, hex_char(n % 16));
        assert(s@ =~= old(s)@ + hex(n as nat));
    }
}

fn hex_len(n: u32) -> (r: usize)
    ensures
        r == hex(n as nat).len(),
    decreases n,
{
    if n < 16 {
        1
    } else {
        let k = hex_len(n / 16);
        proof {
            lemma_hex_len_bound((n / 16) as nat);
        }
        k + 1
    }
}

proof fn lemma_hex_len_bound(n: nat)
    ensures
        hex(n).len() <= n + 1,
    decreases n,
{
    if n >= 16 {
        lemma_hex_len_bound(n / 16);
    }
}

/// Appends a number in hexadecimal, zero-padded to six digits.
pub fn push_hex6(s: &mut String, n: u32)
    ensures
        final(s)@ == old(s)@ + hex6(n as nat),
{
    let len = hex_len(n);
    let mut k: usize = len;
    while k < 6
        invariant
            len <= k,
            len <= 6 ==> k <= 6,
            len > 6 ==> k == len,
            len == hex(n as nat).len(),
            s@ == old(s)@ + Seq::new((k - len) as nat, |_j: int| '0'),
        decreases 6 - k,
    {
        push_char(s, '0');
        k = k + 1;
        assert(s@ =~= old(s)@ + Seq::new((k - len) as nat, |_j: int| '0'));
    }
    let ghost mid = s@;
    push_hex(s, n);
    assert(s@ =~= old(s)@ + hex6(n as nat));
}

/// The file a published level is stored in: `levels/` and its id in six hex
/// digits.
pub fn level_path(id: u32) -> (r: String)
    ensures
        r@ == "levels/"@ + hex6(id as nat),
{
    let mut s = String::new();
    push_all(&mut s, "levels/");
    push_hex6(&mut s, id);
    s
}

/// The file of the run that proved a level can be cleared.
pub fn author_run_path(id: u32) -> (r: String)
    ensures
        r@ == "author-runs/"@ + hex6(id as nat),
{
    let mut s = String::new();
    push_all(&mut s, "author-runs/");
    push_hex6(&mut s, id);
    s
}

/// The file of the world-record run of a level.
pub fn wr_run_path(id: u32) -> (r: String)
    ensures
        r@ == "wr-runs/"@ + hex6(id as nat),
{
    let mut s = String::new();
    push_all(&mut s, "wr-runs/");
    push_hex6(&mut s, id);
    s
}

/// The two names a new world-record run is written under: first a temporary
/// file (`.tmp` after the record's name), then renamed to the first fourteen
/// characters of that name.
pub fn wr_run_paths(id: u32) -> (r: (String, String))
    ensures
        r.0@ == "wr-runs/"@ + hex6(id as nat) + ".tmp"@,
        r.1@ == r.0@.take(14),
{
    let mut tmp = wr_run_path(id);
    push_all(&mut tmp, ".tmp");
    let cs = crate::text::chars_of(tmp.as_str());
    let mut fin = String::new();
    let mut k: usize = 0;
    proof {
        reveal_strlit("wr-runs/");
        reveal_strlit(".tmp");
    }
    assert(cs@.len() >= 14);
    while k < 14
        invariant
            k <= 14,
            cs@.len() >= 14,
            fin@ == cs@.take(k as int),
        decreases 14 - k,
    {
        push_char(&mut fin, cs[k]);
        k = k + 1;
        assert(fin@ =~= cs@.take(k as int));
    }
    (tmp, fin)
}

/// The id of a new level from a random number: its low 24 bits.
pub fn level_id_from(random: u32) -> (r: u32)
    ensures
        r == random & 0xff_ffff,
        r <= 0xff_ffff,
{
    let r = random & 0xff_ffff;
    assert(r <= 0xff_ffff) by (bit_vector)
        requires
            r == random & 0xff_ffff,
    ;
    r
}

/// A level id is six hex digits at most: its files' names have the same length.
pub proof fn law_level_ids_have_six_digits(random: u32)
    ensures
        hex((random & 0xff_ffffu32) as nat).len() <= 6,
{
    let n = (random & 0xff_ffffu32) as nat;
    assert((random & 0xff_ffffu32) <= 0xff_ffffu32) by (bit_vector);
    assert(pow16(6) == 0x100_0000) by {
        reveal_with_fuel(pow16, 7);
    }
    lemma_hex_len_below(n, 6);
}

proof fn lemma_hex_len_below(n: nat, k: nat)
    requires
        n < pow16(k),
        k >= 1,
    ensures
        hex(n).len() <= k,
    decreases k,
{
    if n >= 16 {
        assert(k >= 2) by {
            if k == 1 {
                assert(pow16(1) == 16) by {
                    assert(pow16(0) == 1);
                }
            }
        }
        assert(n / 16 < pow16((k - 1) as nat)) by (nonlinear_arith)
            requires
                n < pow16(k),
                pow16(k) == 16 * pow16((k - 1) as nat),
        ;
        lemma_hex_len_below(n / 16, (k - 1) as nat);
    }
}

/// Sixteen to the power `k`.
pub open spec fn pow16(k: nat) -> nat
    decreases k,
{
    if k == 0 {
        1
    } else {
        16 * pow16((k - 1) as nat)
    }
}

/// The answer of the publish handler when the level could not be verified.
pub const PUBLISH_BAD: u32 = u32::MAX - 1;

/// The column a search orders its results by, newest or most liked first.
pub fn order_column(order: LevelOrdering) -> (r: &'static str)
    ensures
        r@ == (if order == LevelOrdering::New { "publish_time"@ } else { "likes"@ }),
{
    match order {
        LevelOrdering::New => "publish_time",
        LevelOrdering::Top => "likes",
    }
}

/// Whether a search looks for one level by id (any id but `u32::MAX`).
pub fn searches_by_id(id: u32) -> (r: bool)
    ensures
        r == (id != u32::MAX),
{
    id != u32::MAX
}

/// Whether a player name is accepted: from 3 to 24 bytes.
pub fn valid_user_name(name: &str) -> (r: bool)
    ensures
        r == (2 < (name.spec_bytes().len() as usize) && (name.spec_bytes().len() as usize) < 25),
{
    let n = name.len();
    n > 2 && n < 25
}

/// Whether unpublishing succeeded: exactly one level of the player was hidden.
pub fn unpublished(rows_affected: u64) -> (r: bool)
    ensures
        r == (rows_affected == 1),
{
    rows_affected == 1
}

/// What the server answers an authenticated request with.
#[derive(Debug, Clone, Copy, PartialEq, Eq, Structural)]
pub enum RequestAnswer {
    /// The request could not be read.
    BadRequest,
    /// The session is unknown: the client must log in again.
    BadAuth,
    /// Handle the request for the session's player.
    Handle,
}

/// Decides an authenticated request from whether it could be read and whether
/// its session is known.
pub fn request_answer(decoded: bool, session_known: bool) -> (r: RequestAnswer)
    ensures
        r == (if !decoded {
            RequestAnswer::BadRequest
        } else if !session_known {
            RequestAnswer::BadAuth
        } else {
            RequestAnswer::Handle
        }),
{
    if !decoded {
        RequestAnswer::BadRequest
    } else if !session_known {
        RequestAnswer::BadAuth
    } else {
        RequestAnswer::Handle
    }
}

/// The moment from which the server counts time: 13 April 2025, 11:38:20 UTC,
/// in seconds since 1970.
pub const EPOCH: u64 = 1744544300;

/// The server's time from seconds since 1970: seconds since its own epoch, kept
/// to 32 bits (a clock before the epoch wraps around).
pub fn seconds_since_epoch(unix_seconds: u64) -> (r: u32)
    ensures
        r == ((unix_seconds as int - EPOCH as int) % 0x1_0000_0000) as u32,
{
    let d = unix_seconds.wrapping_sub(EPOCH);
    let r = d as u32;
    assert(r == ((unix_seconds as int - EPOCH as int) % 0x1_0000_0000) as u32) by (bit_vector)
        requires
            d == (if unix_seconds >= EPOCH { (unix_seconds - EPOCH) as u64 } else { (unix_seconds - EPOCH + 0x1_0000_0000_0000_0000) as u64 }),
            r == d as u32,
    ;
    r
}

/// The clock's reading, as `std::time::SystemTime` holds it.
#[verifier::external_type_specification]
#[verifier::external_body]
pub struct ExSystemTime(std::time::SystemTime);

/// Reads the system clock (`SystemTime::now`). Nothing is stated of the
/// reading: it is the machine's clock.
#[verifier::external_body]
fn clock_now() -> std::time::SystemTime {
    std::time::SystemTime::now()
}

/// The time from 1970 to a clock reading (`SystemTime::duration_since` with
/// `UNIX_EPOCH`), or nothing when the reading lies before 1970. Nothing is
/// stated of the span: the reading is opaque here.
#[verifier::external_body]
fn since_unix_epoch(t: std::time::SystemTime) -> Option<std::time::Duration> {
    match t.duration_since(std::time::SystemTime::UNIX_EPOCH) {
        Ok(d) => Some(d),
        Err(_) => None,
    }
}

/// The whole seconds of a span (`Duration::as_secs`). Nothing is stated of
/// them: the span is opaque here.
#[verifier::external_body]
fn whole_seconds(d: std::time::Duration) -> u64 {
    d.as_secs()
}

/// The server's time for a reading of the clock in seconds since 1970
/// (nothing when the clock read before 1970).
pub fn server_time(clock: Option<u64>) -> (r: Option<u32>)
    ensures
        r == match clock {
            Some(s) => Some(((s as int - EPOCH as int) % 0x1_0000_0000) as u32),
            None => None,
        },
{
    match clock {
        Some(s) => Some(seconds_since_epoch(s)),
        None => None,
    }
}

/// The server's time now, in seconds since its epoch (nothing when the clock
/// reads before 1970); see `server_time`.
pub fn now() -> (r: Option<u32>)
{
    let clock = match since_unix_epoch(clock_now()) {
        Some(d) => Some(whole_seconds(d)),
        None => None,
    };
    server_time(clock)
}

/// A new time replaces a stored personal best exactly when it is faster, and
/// always becomes the best when none is stored.
pub proof fn law_faster_time_replaces_best(time: u32, stored: Option<u32>)
    ensures
        spec_new_best(time, stored) == match stored {
            Some(t) => time < t,
            None => true,
        },
{
}

} // verus!
