//! The compute half of the weather client: the query URL, the bounded
//! response buffer, and the extraction of the required fields from the
//! response body. The network exchange itself happens outside the crate
//! and hands bytes in; everything here is a function of those bytes.

use vstd::prelude::*;
use vstd::string::StringSliceAdditionalSpecFns;
use crate::textfmt::append_bytes;
use crate::weather::{Failure, Main, Weather, WeatherData, Wind};

verus! {

// ---------------------------------------------------------------------
// Query URL
// ---------------------------------------------------------------------
/// The fixed provider endpoint, location and units; only the credential
/// is appended.
pub open spec fn base_url_bytes() -> Seq<u8> {
    "https://api.openweathermap.org/data/2.5/weather?q=Tokyo&units=metric&appid=".spec_bytes()
}

/// Holds the one request URL a fetch uses.
pub struct WeatherApi {
    pub url: Vec<u8>,
}

impl WeatherApi {
    /// Builds the query URL from the build-time credential. The URL
    /// lives in a buffer bounded at 120 bytes; a credential that would
    /// overflow it is refused outright rather than truncated.
    pub fn new(api_key: &[u8]) -> (r: Option<WeatherApi>)
        ensures
            r matches Some(a) ==> a.url@ == base_url_bytes() + api_key@ && a.url@.len() <= 120,
            r is Some <==> base_url_bytes().len() + api_key@.len() <= 120,
    {
        let base: &[u8] = "https://api.openweathermap.org/data/2.5/weather?q=Tokyo&units=metric&appid=".as_bytes();
        if api_key.len() <= 120 && base.len() <= 120 - api_key.len() {
            let mut url: Vec<u8> = Vec::new();
            append_bytes(&mut url, base);
            append_bytes(&mut url, api_key);
            Some(WeatherApi { url })
        } else {
            None
        }
    }
}

// ---------------------------------------------------------------------
// Bounded response buffer
// ---------------------------------------------------------------------
/// Size of the fixed read buffer a response must fit into.
pub open spec fn body_capacity() -> int {
    4096
}

/// The fixed-size read buffer the response body is collected into. A
/// body that would not fit is a protocol failure, never a truncation
/// and never a write past the bound.
pub struct BodyBuffer {
    pub data: Vec<u8>,
}

impl BodyBuffer {
    /// The buffer never holds more than its capacity.
    pub open spec fn wf(&self) -> bool {
        self.data@.len() <= body_capacity()
    }

    pub fn new() -> (r: BodyBuffer)
        ensures
            r.wf(),
            r.data@.len() == 0,
    {
        BodyBuffer { data: Vec::new() }
    }

    pub fn capacity(&self) -> (r: usize)
        ensures
            r as int == body_capacity(),
    {
        4096
    }

    /// Appends one received chunk. The chunk goes in whole or not at
    /// all: if it would push the buffer past its capacity, the buffer is
    /// left untouched and the cycle fails with a protocol failure.
    pub fn push_chunk(&mut self, chunk: &[u8]) -> (r: Result<(), Failure>)
        requires
            old(self).wf(),
        ensures
            final(self).wf(),
            r is Ok <==> old(self).data@.len() + chunk@.len() <= body_capacity(),
            r is Ok ==> final(self).data@ == old(self).data@ + chunk@,
            r matches Err(f) ==> f == Failure::Protocol && final(self).data@ == old(self).data@,
    {
        if chunk.len() <= 4096 - self.data.len() {
            append_bytes(&mut self.data, chunk);
            Ok(())
        } else {
            Err(Failure::Protocol)
        }
    }
}

// ---------------------------------------------------------------------
// Scanning primitives and their grammar
// ---------------------------------------------------------------------
/// An ASCII decimal digit.
pub open spec fn is_digit(b: u8) -> bool {
    48 <= b <= 57
}

/// The first position at or after `i` where `needle` occurs in `hay`.
pub open spec fn find_from(hay: Seq<u8>, needle: Seq<u8>, i: int) -> Option<int>
    decreases hay.len() + 1 - i,
{
    if i < 0 || i + needle.len() > hay.len() {
        None
    } else if hay.subrange(i, i + needle.len() as int) == needle {
        Some(i)
    } else {
        find_from(hay, needle, i + 1)
    }
}

proof fn lemma_find_from_found(s: Seq<u8>, n: Seq<u8>, i: int)
    ensures
        find_from(s, n, i) matches Some(j) ==> i <= j && j + n.len() <= s.len(),
    decreases s.len() + 1 - i,
{
    if i < 0 || i + n.len() > s.len() {
    } else if s.subrange(i, i + n.len() as int) == n {
    } else {
        lemma_find_from_found(s, n, i + 1);
    }
}

/// Whether `needle` stands at position `i` of `hay`.
fn match_at(hay: &[u8], needle: &[u8], i: usize) -> (r: bool)
    requires
        i + needle@.len() <= hay@.len(),
    ensures
        r == (hay@.subrange(i as int, i as int + needle@.len() as int) == needle@),
{
    let hl = hay.len();
    let mut j: usize = 0;
    while j < needle.len()
        invariant
            j <= needle@.len(),
            i + needle@.len() <= hay@.len(),
            hay@.len() == hl,
            forall|t: int| 0 <= t < j ==> hay@[i + t] == needle@[t],
        decreases needle@.len() - j,
    {
        if hay[i + j] != needle[j] {
            proof {
                assert(hay@.subrange(i as int, i as int + needle@.len() as int)[j as int]
                    == hay@[i + j]);
            }
            return false;
        }
        j = j + 1;
    }
    proof {
        assert(hay@.subrange(i as int, i as int + needle@.len() as int) =~= needle@);
    }
    true
}

/// First occurrence of `needle` in `hay`, scanning left to right.
fn find_sub(hay: &[u8], needle: &[u8]) -> (r: Option<usize>)
    ensures
        r matches Some(i) ==> find_from(hay@, needle@, 0) == Some(i as int),
        r is None ==> find_from(hay@, needle@, 0) is None,
{
    if needle.len() == 0 {
        proof {
            assert(hay@.subrange(0, 0) =~= needle@);
        }
        return Some(0);
    }
    if needle.len() > hay.len() {
        return None;
    }
    let mut i: usize = 0;
    while i <= hay.len() - needle.len()
        invariant
            needle@.len() >= 1,
            needle@.len() <= hay@.len(),
            i <= hay@.len() - needle@.len() + 1,
            find_from(hay@, needle@, 0) == find_from(hay@, needle@, i as int),
        decreases hay@.len() - i,
    {
        if match_at(hay, needle, i) {
            return Some(i);
        }
        i = i + 1;
    }
    None
}

/// End of the digit run that starts at `i`.
pub open spec fn digits_end(s: Seq<u8>, i: int) -> int
    decreases s.len() - i,
{
    if i < 0 || i >= s.len() || !is_digit(s[i]) {
        i
    } else {
        digits_end(s, i + 1)
    }
}

proof fn lemma_digits_end_ge(s: Seq<u8>, i: int)
    ensures
        digits_end(s, i) >= i,
    decreases s.len() - i,
{
    if i < 0 || i >= s.len() || !is_digit(s[i]) {
    } else {
        lemma_digits_end_ge(s, i + 1);
    }
}

/// The number a digit string denotes, most significant digit first.
pub open spec fn digits_val(s: Seq<u8>) -> int
    decreases s.len(),
{
    if s.len() == 0 {
        0
    } else {
        digits_val(s.drop_last()) * 10 + (s.last() - 48)
    }
}

/// Ten to the `n`.
pub open spec fn pow10(n: int) -> int
    decreases n,
{
    if n <= 0 {
        1
    } else {
        10 * pow10(n - 1)
    }
}

proof fn lemma_pow10_pos(n: int)
    ensures
        pow10(n) >= 1,
    decreases n,
{
    if n <= 0 {
    } else {
        lemma_pow10_pos(n - 1);
    }
}

proof fn lemma_pow10_mono(a: int, b: int)
    requires
        a <= b,
    ensures
        pow10(a) <= pow10(b),
    decreases b - a,
{
    if a == b {
    } else {
        lemma_pow10_mono(a, b - 1);
        lemma_pow10_pos(b - 1);
    }
}

proof fn lemma_digits_val_bound(s: Seq<u8>)
    requires
        forall|t: int| 0 <= t < s.len() ==> is_digit(s[t]),
    ensures
        0 <= digits_val(s) < pow10(s.len() as int),
    decreases s.len(),
{
    if s.len() == 0 {
    } else {
        assert(forall|t: int| 0 <= t < s.drop_last().len() ==> is_digit(s.drop_last()[t]));
        lemma_digits_val_bound(s.drop_last());
    }
}

/// An unsigned number literal at `i`: one to ten digits. Yields its
/// value and the position just past it.
pub open spec fn spec_uint_at(s: Seq<u8>, i: int) -> Option<(int, int)> {
    let e = digits_end(s, i);
    if i < e && e - i <= 10 {
        Some((digits_val(s.subrange(i, e)), e))
    } else {
        None
    }
}

/// An optionally negated integer literal at `i`.
pub open spec fn spec_int_at(s: Seq<u8>, i: int) -> Option<(int, int)> {
    if 0 <= i < s.len() && s[i] == 45 {
        match spec_uint_at(s, i + 1) {
            None => None,
            Some(p) => Some((-p.0, p.1)),
        }
    } else {
        spec_uint_at(s, i)
    }
}

/// An unsigned number with an optional fraction, read in tenths; only
/// the first fractional digit carries into the value.
pub open spec fn spec_udeci_at(s: Seq<u8>, i: int) -> Option<(int, int)> {
    match spec_uint_at(s, i) {
        None => None,
        Some(p) => if p.1 < s.len() && s[p.1] == 46 {
            match spec_uint_at(s, p.1 + 1) {
                None => None,
                Some(q) => Some((p.0 * 10 + (s[p.1 + 1] - 48), q.1)),
            }
        } else {
            Some((p.0 * 10, p.1))
        },
    }
}

/// An optionally negated number in tenths at `i`.
pub open spec fn spec_deci_at(s: Seq<u8>, i: int) -> Option<(int, int)> {
    if 0 <= i < s.len() && s[i] == 45 {
        match spec_udeci_at(s, i + 1) {
            None => None,
            Some(p) => Some((-p.0, p.1)),
        }
    } else {
        spec_udeci_at(s, i)
    }
}

/// Reads the digit run at `start`, refusing an empty run and one longer
/// than ten digits.
fn parse_uint_at(body: &[u8], start: usize) -> (r: Result<(u64, usize), Failure>)
    requires
        start <= body@.len(),
    ensures
        r matches Ok(p) ==> spec_uint_at(body@, start as int) == Some((p.0 as int, p.1 as int))
            && p.0 < 10000000000 && start < p.1 <= body@.len(),
        r is Err ==> spec_uint_at(body@, start as int) is None,
        r matches Err(f) ==> f == Failure::DataShape,
{
    let mut k: usize = start;
    let mut acc: u64 = 0;
    while k < body.len() && 48 <= body[k] && body[k] <= 57
        invariant
            start <= k <= body@.len(),
            k - start <= 10,
            forall|t: int| start <= t < k ==> is_digit(body@[t]),
            digits_end(body@, start as int) == digits_end(body@, k as int),
            acc as int == digits_val(body@.subrange(start as int, k as int)),
            acc < 10000000000,
        decreases body@.len() - k,
    {
        if k - start == 10 {
            proof {
                lemma_digits_end_ge(body@, k as int + 1);
                assert(digits_end(body@, k as int) == digits_end(body@, k as int + 1));
            }
            return Err(Failure::DataShape);
        }
        let d = body[k] - 48;
        proof {
            lemma_digits_val_bound(body@.subrange(start as int, k as int));
            lemma_pow10_mono(k - start, 9);
            reveal_with_fuel(pow10, 11);
            assert(pow10(9) == 1000000000);
            assert(body@.subrange(start as int, k as int + 1).drop_last() =~= body@.subrange(
                start as int,
                k as int,
            ));
            assert(digits_end(body@, k as int) == digits_end(body@, k as int + 1));
        }
        acc = acc * 10 + d as u64;
        k = k + 1;
    }
    if k == start {
        Err(Failure::DataShape)
    } else {
        Ok((acc, k))
    }
}

/// Reads an optionally negated integer literal at `start`.
fn parse_int_at(body: &[u8], start: usize) -> (r: Result<(i64, usize), Failure>)
    requires
        start <= body@.len(),
    ensures
        r matches Ok(p) ==> spec_int_at(body@, start as int) == Some((p.0 as int, p.1 as int))
            && -10000000000 < p.0 < 10000000000,
        r is Err ==> spec_int_at(body@, start as int) is None,
        r matches Err(f) ==> f == Failure::DataShape,
{
    if start < body.len() && body[start] == 45 {
        match parse_uint_at(body, start + 1) {
            Err(f) => Err(f),
            Ok((v, e)) => Ok((-(v as i64), e)),
        }
    } else {
        match parse_uint_at(body, start) {
            Err(f) => Err(f),
            Ok((v, e)) => Ok((v as i64, e)),
        }
    }
}

/// Reads an optionally negated number at `start` into tenths.
fn parse_deci_at(body: &[u8], start: usize) -> (r: Result<(i64, usize), Failure>)
    requires
        start <= body@.len(),
    ensures
        r matches Ok(p) ==> spec_deci_at(body@, start as int) == Some((p.0 as int, p.1 as int))
            && -100000000000 < p.0 < 100000000000,
        r is Err ==> spec_deci_at(body@, start as int) is None,
        r matches Err(f) ==> f == Failure::DataShape,
{
    let neg = start < body.len() && body[start] == 45;
    let st: usize = if neg { start + 1 } else { start };
    match parse_uint_at(body, st) {
        Err(f) => Err(f),
        Ok((v, e)) => {
            let (mag, end): (u64, usize) = if e < body.len() && body[e] == 46 {
                match parse_uint_at(body, e + 1) {
                    Err(f) => {
                        return Err(f);
                    },
                    Ok((_f2, e2)) => {
                        let frac = body[e + 1] - 48;
                        (v * 10 + frac as u64, e2)
                    },
                }
            } else {
                (v * 10, e)
            };
            if neg {
                Ok((-(mag as i64), end))
            } else {
                Ok((mag as i64, end))
            }
        },
    }
}

// ---------------------------------------------------------------------
// Field extraction
// ---------------------------------------------------------------------
/// The integer value following the first occurrence of `key`.
pub open spec fn spec_field_int(s: Seq<u8>, key: Seq<u8>) -> Option<int> {
    match find_from(s, key, 0) {
        None => None,
        Some(i) => match spec_int_at(s, i + key.len() as int) {
            None => None,
            Some(p) => Some(p.0),
        },
    }
}

/// The tenths value following the first occurrence of `key`.
pub open spec fn spec_field_deci(s: Seq<u8>, key: Seq<u8>) -> Option<int> {
    match find_from(s, key, 0) {
        None => None,
        Some(i) => match spec_deci_at(s, i + key.len() as int) {
            None => None,
            Some(p) => Some(p.0),
        },
    }
}

/// End of the run of non-quote bytes that starts at `i`.
pub open spec fn quote_end(s: Seq<u8>, i: int) -> int
    decreases s.len() - i,
{
    if i < 0 || i >= s.len() || s[i] == 34 {
        i
    } else {
        quote_end(s, i + 1)
    }
}

/// The short string following the first occurrence of `key`: the bytes
/// up to the closing quote, at most 20 of them, with escapes refused.
pub open spec fn spec_field_str(s: Seq<u8>, key: Seq<u8>) -> Option<Seq<u8>> {
    match find_from(s, key, 0) {
        None => None,
        Some(i) => {
            let st = i + key.len() as int;
            let q = quote_end(s, st);
            if q < s.len() && q - st <= 20 && (forall|t: int| st <= t < q ==> s[t] != 92) {
                Some(s.subrange(st, q))
            } else {
                None
            }
        },
    }
}

/// Extracts a required integer field.
fn field_int(body: &[u8], key: &[u8]) -> (r: Result<i64, Failure>)
    ensures
        r matches Ok(v) ==> spec_field_int(body@, key@) == Some(v as int) && -10000000000 < v
            < 10000000000,
        r is Err ==> spec_field_int(body@, key@) is None,
        r matches Err(f) ==> f == Failure::DataShape,
{
    match find_sub(body, key) {
        None => Err(Failure::DataShape),
        Some(i) => {
            let bl = body.len();
            proof {
                lemma_find_from_found(body@, key@, 0);
                assert(i + key@.len() <= bl);
            }
            match parse_int_at(body, i + key.len()) {
                Err(f) => Err(f),
                Ok((v, _e)) => Ok(v),
            }
        },
    }
}

/// Extracts a required numeric field into tenths.
fn field_deci(body: &[u8], key: &[u8]) -> (r: Result<i64, Failure>)
    ensures
        r matches Ok(v) ==> spec_field_deci(body@, key@) == Some(v as int) && -100000000000 < v
            < 100000000000,
        r is Err ==> spec_field_deci(body@, key@) is None,
        r matches Err(f) ==> f == Failure::DataShape,
{
    match find_sub(body, key) {
        None => Err(Failure::DataShape),
        Some(i) => {
            let bl = body.len();
            proof {
                lemma_find_from_found(body@, key@, 0);
                assert(i + key@.len() <= bl);
            }
            match parse_deci_at(body, i + key.len()) {
                Err(f) => Err(f),
                Ok((v, _e)) => Ok(v),
            }
        },
    }
}

/// Extracts the bounded string field.
fn field_str(body: &[u8], key: &[u8]) -> (r: Result<Vec<u8>, Failure>)
    ensures
        r matches Ok(v) ==> spec_field_str(body@, key@) == Some(v@) && v@.len() <= 20,
        r is Err ==> spec_field_str(body@, key@) is None,
        r matches Err(f) ==> f == Failure::DataShape,
{
    match find_sub(body, key) {
        None => Err(Failure::DataShape),
        Some(i) => {
            let bl = body.len();
            proof {
                lemma_find_from_found(body@, key@, 0);
                assert(i + key@.len() <= bl);
            }
            let st: usize = i + key.len();
            let mut k: usize = st;
            while k < body.len() && body[k] != 34 && body[k] != 92 && k - st <= 20
                invariant
                    st <= k <= body@.len(),
                    st <= body@.len(),
                    k - st <= 21,
                    quote_end(body@, st as int) == quote_end(body@, k as int),
                    forall|t: int| st <= t < k ==> body@[t] != 34 && body@[t] != 92,
                decreases body@.len() - k,
            {
                proof {
                    assert(quote_end(body@, k as int) == quote_end(body@, k as int + 1));
                }
                k = k + 1;
            }
            proof {
                lemma_quote_end_ge(body@, k as int);
                if k < body@.len() && body@[k as int] != 34 {
                    assert(quote_end(body@, k as int) == quote_end(body@, k as int + 1));
                    lemma_quote_end_ge(body@, k as int + 1);
                }
            }
            if k < body.len() && body[k] == 34 && k - st <= 20 {
                let mut name: Vec<u8> = Vec::new();
                let mut t: usize = st;
                while t < k
                    invariant
                        st <= t <= k <= body@.len(),
                        name@ == body@.subrange(st as int, t as int),
                    decreases k - t,
                {
                    name.push(body[t]);
                    proof {
                        assert(body@.subrange(st as int, t as int + 1) =~= body@.subrange(
                            st as int,
                            t as int,
                        ).push(body@[t as int]));
                    }
                    t = t + 1;
                }
                Ok(name)
            } else {
                Err(Failure::DataShape)
            }
        },
    }
}

proof fn lemma_quote_end_ge(s: Seq<u8>, i: int)
    ensures
        quote_end(s, i) >= i,
    decreases s.len() - i,
{
    if i < 0 || i >= s.len() || s[i] == 34 {
    } else {
        lemma_quote_end_ge(s, i + 1);
    }
}

/// An optional integer field: absent is tolerated, present but
/// malformed is not.
pub open spec fn spec_opt_int(s: Seq<u8>, key: Seq<u8>) -> Option<Option<int>> {
    if find_from(s, key, 0) is None {
        Some(None)
    } else {
        match spec_field_int(s, key) {
            None => None,
            Some(v) => Some(Some(v)),
        }
    }
}

/// Extracts an optional integer field bounded to `i32`.
fn opt_int32(body: &[u8], key: &[u8]) -> (r: Result<Option<i32>, Failure>)
    ensures
        r matches Ok(Some(x)) ==> spec_opt_int(body@, key@) == Some(Some(x as int)),
        r matches Ok(None) ==> spec_opt_int(body@, key@) == Some(None::<int>),
        r is Err ==> spec_opt_int(body@, key@) is None || (spec_opt_int(body@, key@) matches Some(
            Some(x),
        ) && !(-2147483648 <= x <= 2147483647)),
        r matches Err(f) ==> f == Failure::DataShape,
{
    match find_sub(body, key) {
        None => Ok(None),
        Some(_) => match field_int(body, key) {
            Err(f) => Err(f),
            Ok(v) => {
                if -2147483648 <= v && v <= 2147483647 {
                    Ok(Some(v as i32))
                } else {
                    Err(Failure::DataShape)
                }
            },
        },
    }
}

// ---------------------------------------------------------------------
// The response contract
// ---------------------------------------------------------------------
pub open spec fn key_id() -> Seq<u8> {
    "\"id\":".spec_bytes()
}

pub open spec fn key_temp() -> Seq<u8> {
    "\"temp\":".spec_bytes()
}

pub open spec fn key_humidity() -> Seq<u8> {
    "\"humidity\":".spec_bytes()
}

pub open spec fn key_pressure() -> Seq<u8> {
    "\"pressure\":".spec_bytes()
}

pub open spec fn key_speed() -> Seq<u8> {
    "\"speed\":".spec_bytes()
}

pub open spec fn key_deg() -> Seq<u8> {
    "\"deg\":".spec_bytes()
}

pub open spec fn key_gust() -> Seq<u8> {
    "\"gust\":".spec_bytes()
}

pub open spec fn key_dt() -> Seq<u8> {
    "\"dt\":".spec_bytes()
}

pub open spec fn key_name() -> Seq<u8> {
    "\"name\":\"".spec_bytes()
}

pub open spec fn key_sea_level() -> Seq<u8> {
    "\"sea_level\":".spec_bytes()
}

pub open spec fn key_grnd_level() -> Seq<u8> {
    "\"grnd_level\":".spec_bytes()
}

/// When a body parses: every required field of the response contract is
/// present and well formed, within the bounds its record field can hold,
/// and the optional fields are absent or well formed.
pub open spec fn spec_parse_ok(s: Seq<u8>) -> bool {
    &&& (spec_field_int(s, key_id()) matches Some(v) && 0 <= v <= 65535)
    &&& spec_field_deci(s, key_temp()) is Some
    &&& (spec_field_int(s, key_humidity()) matches Some(h) && -2147483648 <= h <= 2147483647)
    &&& (spec_field_int(s, key_pressure()) matches Some(p) && -2147483648 <= p <= 2147483647)
    &&& spec_field_deci(s, key_speed()) is Some
    &&& spec_field_deci(s, key_deg()) is Some
    &&& spec_field_int(s, key_dt()) is Some
    &&& spec_field_str(s, key_name()) is Some
    &&& spec_opt_int(s, key_sea_level()) matches Some(sl) && (sl matches Some(x) ==> -2147483648
        <= x <= 2147483647)
    &&& spec_opt_int(s, key_grnd_level()) matches Some(gl) && (gl matches Some(x) ==> -2147483648
        <= x <= 2147483647)
    &&& spec_opt_deci(s, key_gust()) is Some
}

/// Parses a response body into the typed record, or reports a data-shape
/// failure: exactly when some required field is missing, malformed or out
/// of bounds.
pub fn parse_weather(body: &[u8]) -> (r: Result<WeatherData, Failure>)
    ensures
        r matches Ok(d) ==> {
            &&& spec_parse_ok(body@)
            &&& d.wf()
            &&& d.weather@.len() == 1
            &&& d.weather@[0].id as int == spec_field_int(body@, key_id()).unwrap()
            &&& d.main.temp_deci as int == spec_field_deci(body@, key_temp()).unwrap()
            &&& d.main.humidity as int == spec_field_int(body@, key_humidity()).unwrap()
            &&& d.main.pressure as int == spec_field_int(body@, key_pressure()).unwrap()
            &&& d.wind.speed_deci as int == spec_field_deci(body@, key_speed()).unwrap()
            &&& d.wind.deg_deci as int == spec_field_deci(body@, key_deg()).unwrap()
            &&& d.dt as int == spec_field_int(body@, key_dt()).unwrap()
            &&& d.name@ == spec_field_str(body@, key_name()).unwrap()
        },
        r is Err ==> !spec_parse_ok(body@),
        r matches Err(f) ==> f == Failure::DataShape,
{
    let id_raw = match field_int(body, "\"id\":".as_bytes()) {
        Err(f) => {
            return Err(f);
        },
        Ok(v) => v,
    };
    if !(0 <= id_raw && id_raw <= 65535) {
        return Err(Failure::DataShape);
    }
    let temp_deci = match field_deci(body, "\"temp\":".as_bytes()) {
        Err(f) => {
            return Err(f);
        },
        Ok(v) => v,
    };
    let humidity = match field_int(body, "\"humidity\":".as_bytes()) {
        Err(f) => {
            return Err(f);
        },
        Ok(v) => v,
    };
    if !(-2147483648 <= humidity && humidity <= 2147483647) {
        return Err(Failure::DataShape);
    }
    let pressure = match field_int(body, "\"pressure\":".as_bytes()) {
        Err(f) => {
            return Err(f);
        },
        Ok(v) => v,
    };
    if !(-2147483648 <= pressure && pressure <= 2147483647) {
        return Err(Failure::DataShape);
    }
    let speed_deci = match field_deci(body, "\"speed\":".as_bytes()) {
        Err(f) => {
            return Err(f);
        },
        Ok(v) => v,
    };
    let deg_deci = match field_deci(body, "\"deg\":".as_bytes()) {
        Err(f) => {
            return Err(f);
        },
        Ok(v) => v,
    };
    let dt = match field_int(body, "\"dt\":".as_bytes()) {
        Err(f) => {
            return Err(f);
        },
        Ok(v) => v,
    };
    let name = match field_str(body, "\"name\":\"".as_bytes()) {
        Err(f) => {
            return Err(f);
        },
        Ok(v) => v,
    };
    let sea_level = match opt_int32(body, "\"sea_level\":".as_bytes()) {
        Err(f) => {
            return Err(f);
        },
        Ok(v) => v,
    };
    let grnd_level = match opt_int32(body, "\"grnd_level\":".as_bytes()) {
        Err(f) => {
            return Err(f);
        },
        Ok(v) => v,
    };
    let gust_deci = match field_opt_deci(body, "\"gust\":".as_bytes()) {
        Err(f) => {
            return Err(f);
        },
        Ok(v) => v,
    };
    let mut weather: Vec<Weather> = Vec::new();
    weather.push(Weather { id: id_raw as u16 });
    Ok(
        WeatherData {
            weather,
            main: Main { temp_deci, pressure: pressure as i32, humidity: humidity as i32, sea_level, grnd_level },
            wind: Wind { speed_deci, deg_deci, gust_deci },
            dt,
            name,
        },
    )
}

/// An optional numeric field in tenths: absent is tolerated, present
/// but malformed is not.
pub open spec fn spec_opt_deci(s: Seq<u8>, key: Seq<u8>) -> Option<Option<int>> {
    if find_from(s, key, 0) is None {
        Some(None)
    } else {
        match spec_field_deci(s, key) {
            None => None,
            Some(v) => Some(Some(v)),
        }
    }
}

/// Extracts an optional numeric field into tenths.
fn field_opt_deci(body: &[u8], key: &[u8]) -> (r: Result<Option<i64>, Failure>)
    ensures
        r matches Ok(Some(x)) ==> spec_opt_deci(body@, key@) == Some(Some(x as int)),
        r matches Ok(None) ==> spec_opt_deci(body@, key@) == Some(None::<int>),
        r is Err ==> spec_opt_deci(body@, key@) is None,
        r matches Err(f) ==> f == Failure::DataShape,
{
    match find_sub(body, key) {
        None => Ok(None),
        Some(_) => match field_deci(body, key) {
            Err(f) => Err(f),
            Ok(v) => Ok(Some(v)),
        },
    }
}

} // verus!
