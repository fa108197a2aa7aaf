//! Text the overlay's indicators show, built character by
//! character: the in-game timer, the map identifier, the version
//! line and the frame counter.

use vstd::prelude::*;

verus! {

/// The decimal digit character for `d`.
pub open spec fn spec_digit(d: int) -> char
    recommends
        0 <= d < 10,
{
    ((48 + d) as char)
}

/// The decimal digits of `n`, most significant first.
pub open spec fn spec_dec(n: int) -> Seq<char>
    recommends
        n >= 0,
    decreases n,
{
    if n < 10 {
        seq![spec_digit(n)]
    } else {
        spec_dec(n / 10) + seq![spec_digit(n % 10)]
    }
}

/// The decimal digits of `n`, zero-padded to at least two places.
pub open spec fn spec_dec2(n: int) -> Seq<char>
    recommends
        n >= 0,
{
    if n < 10 {
        seq!['0', spec_digit(n)]
    } else {
        spec_dec(n)
    }
}

/// The lower-case hexadecimal digit character for `d`.
pub open spec fn spec_hex_digit(d: int) -> char
    recommends
        0 <= d < 16,
{
    if d < 10 {
        ((48 + d) as char)
    } else {
        ((87 + d) as char)
    }
}

/// The two hexadecimal digits of a byte.
pub open spec fn spec_hex2(n: int) -> Seq<char>
    recommends
        0 <= n < 256,
{
    seq![spec_hex_digit(n / 16), spec_hex_digit(n % 16)]
}

/// One decimal digit as text.
fn digit_str(d: u32) -> (r: &'static str)
    requires
        d < 10,
    ensures
        r@ == seq![spec_digit(d as int)],
{
    proof {
        reveal_strlit("0");
        reveal_strlit("1");
        reveal_strlit("2");
        reveal_strlit("3");
        reveal_strlit("4");
        reveal_strlit("5");
        reveal_strlit("6");
        reveal_strlit("7");
        reveal_strlit("8");
        reveal_strlit("9");
    }
    let r = match d {
        0 => "0",
        1 => "1",
        2 => "2",
        3 => "3",
        4 => "4",
        5 => "5",
        6 => "6",
        7 => "7",
        8 => "8",
        _ => "9",
    };
    proof {
        assert(r@ =~= seq![spec_digit(d as int)]);
    }
    r
}

/// One hexadecimal digit as text.
fn hex_digit_str(d: u32) -> (r: &'static str)
    requires
        d < 16,
    ensures
        r@ == seq![spec_hex_digit(d as int)],
{
    proof {
        reveal_strlit("a");
        reveal_strlit("b");
        reveal_strlit("c");
        reveal_strlit("d");
        reveal_strlit("e");
        reveal_strlit("f");
    }
    if d < 10 {
        digit_str(d)
    } else {
        let r = match d {
            10 => "a",
            11 => "b",
            12 => "c",
            13 => "d",
            14 => "e",
            _ => "f",
        };
        proof {
            assert(r@ =~= seq![spec_hex_digit(d as int)]);
        }
        r
    }
}

/// The decimal digits of `n`.
pub fn u32_dec(n: u32) -> (r: String)
    ensures
        r@ == spec_dec(n as int),
    decreases n,
{
    if n < 10 {
        String::from_str(digit_str(n))
    } else {
        let high = u32_dec(n / 10);
        high.concat(digit_str(n % 10))
    }
}

/// The decimal digits of `n`, zero-padded to at least two places.
pub fn u32_dec2(n: u32) -> (r: String)
    ensures
        r@ == spec_dec2(n as int),
{
    if n < 10 {
        let r = String::from_str("0");
        proof {
            reveal_strlit("0");
            assert(r@ =~= seq!['0']);
        }
        r.concat(digit_str(n))
    } else {
        u32_dec(n)
    }
}

/// The two hexadecimal digits of a byte.
pub fn u32_hex2(n: u32) -> (r: String)
    requires
        n < 256,
    ensures
        r@ == spec_hex2(n as int),
{
    let r = String::from_str(hex_digit_str(n / 16));
    r.concat(hex_digit_str(n % 16))
}

/// The timer line: `IGT` and hours, minutes, seconds and
/// centiseconds from a millisecond count.
pub open spec fn spec_igt_text(ms: int) -> Seq<char>
    recommends
        ms >= 0,
{
    let total_seconds = ms / 1000;
    "IGT "@ + spec_dec2(total_seconds / 3600) + ":"@ + spec_dec2(total_seconds / 60 % 60) + ":"@
        + spec_dec2(total_seconds % 60) + "."@ + spec_dec2((ms % 1000) / 10)
}

/// Builds the timer line from a millisecond count.
pub fn igt_text(igt: u32) -> (r: String)
    ensures
        r@ == spec_igt_text(igt as int),
{
    let millis = (igt % 1000) / 10;
    let total_seconds = igt / 1000;
    let seconds = total_seconds % 60;
    let minutes = total_seconds / 60 % 60;
    let hours = total_seconds / 3600;
    let r = String::from_str("IGT ");
    let r = r.concat(u32_dec2(hours).as_str());
    let r = r.concat(":");
    let r = r.concat(u32_dec2(minutes).as_str());
    let r = r.concat(":");
    let r = r.concat(u32_dec2(seconds).as_str());
    let r = r.concat(".");
    let r = r.concat(u32_dec2(millis).as_str());
    r
}

/// The map line: `m` and the four bytes of the map identifier in
/// hexadecimal, underscore separated.
pub open spec fn spec_map_id_text(m: u32) -> Seq<char> {
    "m"@ + spec_hex2(((m >> 24) & 0xff) as int) + "_"@ + spec_hex2(((m >> 16) & 0xff) as int)
        + "_"@ + spec_hex2(((m >> 8) & 0xff) as int) + "_"@ + spec_hex2((m & 0xff) as int)
}

/// Builds the map line from the packed map identifier.
pub fn map_id_text(m: u32) -> (r: String)
    ensures
        r@ == spec_map_id_text(m),
{
    let a = (m >> 24) & 0xff;
    let b = (m >> 16) & 0xff;
    let region = (m >> 8) & 0xff;
    let block = m & 0xff;
    proof {
        assert((m >> 24) & 0xff < 256 && (m >> 16) & 0xff < 256 && (m >> 8) & 0xff < 256 && m
            & 0xff < 256) by (bit_vector);
    }
    let r = String::from_str("m");
    let r = r.concat(u32_hex2(a).as_str());
    let r = r.concat("_");
    let r = r.concat(u32_hex2(b).as_str());
    let r = r.concat("_");
    let r = r.concat(u32_hex2(region).as_str());
    let r = r.concat("_");
    let r = r.concat(u32_hex2(block).as_str());
    r
}

/// The version line: `Game Ver` and the host's three-part version,
/// the minor part zero-padded to two places.
pub open spec fn spec_version_label(maj: int, min: int, patch: int) -> Seq<char> {
    "Game Ver "@ + spec_dec(maj) + "."@ + spec_dec2(min) + "."@ + spec_dec(patch)
}

/// Builds the version line.
pub fn version_label(maj: u32, min: u32, patch: u32) -> (r: String)
    ensures
        r@ == spec_version_label(maj as int, min as int, patch as int),
{
    let r = String::from_str("Game Ver ");
    let r = r.concat(u32_dec(maj).as_str());
    let r = r.concat(".");
    let r = r.concat(u32_dec2(min).as_str());
    let r = r.concat(".");
    let r = r.concat(u32_dec(patch).as_str());
    r
}

/// The frame-counter line.
pub open spec fn spec_frame_count_text(n: int) -> Seq<char> {
    "Frame count "@ + spec_dec(n)
}

/// Builds the frame-counter line.
pub fn frame_count_text(n: u32) -> (r: String)
    ensures
        r@ == spec_frame_count_text(n as int),
{
    let r = String::from_str("Frame count ");
    r.concat(u32_dec(n).as_str())
}

/// The diagnostic shown when configuration could not be loaded:
/// it names the configuration file and carries the error's text.
pub open spec fn spec_config_err_text(file: Seq<char>, e: Seq<char>) -> Seq<char> {
    "Configuration error, please review your "@ + file + " file.\n\n"@ + e
}

/// Builds the configuration-error diagnostic.
pub fn config_err_text(file: &str, e: &str) -> (r: String)
    ensures
        r@ == spec_config_err_text(file@, e@),
{
    let r = String::from_str("Configuration error, please review your ");
    let r = r.concat(file);
    let r = r.concat(" file.\n\n");
    r.concat(e)
}

} // verus!
