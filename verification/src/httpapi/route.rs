use vstd::prelude::*;
use vstd::string::StringSliceAdditionalSpecFns;

verus! {

/// The request method, as far as the route table tells methods apart.
#[derive(Clone, Copy, Debug, PartialEq, Eq, Structural)]
pub enum Method {
    Get,
    Post,
    Other,
}

/// Where a request goes.
#[derive(Clone, Copy, Debug, PartialEq, Eq, Structural)]
pub enum Route {
    /// `GET /users/{id}` with an id that reads as a signed integer.
    GetUser(i64),
    /// `POST /users`.
    CreateUser,
    /// `GET /users/{id}` with an id that is no signed integer.
    BadRequest,
    /// A method and a path that the table does not have together.
    NotFound,
}

/// The bytes of `/users`.
pub open spec fn users_path() -> Seq<u8> {
    seq![0x2fu8, 0x75u8, 0x73u8, 0x65u8, 0x72u8, 0x73u8]
}

/// The bytes of `/users/`.
pub open spec fn users_prefix() -> Seq<u8> {
    users_path().push(0x2fu8)
}

/// The `{id}` segment of a path of the form `/users/{id}`: what follows
/// `/users/`, where that is not empty and holds no further `/`.
pub open spec fn user_segment(path: Seq<u8>) -> Option<Seq<u8>> {
    let segment = path.skip(7);
    if path.len() > 7 && path.take(7) == users_prefix() && !segment.contains(0x2fu8) {
        Some(segment)
    } else {
        None
    }
}

pub open spec fn is_digit(byte: u8) -> bool {
    0x30 <= byte <= 0x39
}

pub open spec fn all_digits(digits: Seq<u8>) -> bool {
    forall|i: int| 0 <= i < digits.len() ==> is_digit(#[trigger] digits[i])
}

/// The number that a sequence of decimal digits writes.
pub open spec fn digits_value(digits: Seq<u8>) -> int
    decreases digits.len(),
{
    if digits.len() == 0 {
        0
    } else {
        digits_value(digits.drop_last()) * 10 + (digits.last() - 0x30)
    }
}

pub open spec fn has_sign(segment: Seq<u8>) -> bool {
    segment.len() > 0 && (segment[0] == 0x2bu8 || segment[0] == 0x2du8)
}

/// The digits of a segment: all of it but a leading `+` or `-`.
pub open spec fn digits_of(segment: Seq<u8>) -> Seq<u8> {
    if has_sign(segment) {
        segment.skip(1)
    } else {
        segment
    }
}

/// The integer that a segment writes, whether or not it fits an `i64`.
pub open spec fn signed_value(segment: Seq<u8>) -> int {
    if segment.len() > 0 && segment[0] == 0x2du8 {
        -digits_value(digits_of(segment))
    } else {
        digits_value(digits_of(segment))
    }
}

/// The id that a path segment writes: an optional sign and at least one
/// decimal digit, with a value that fits an `i64`.
pub open spec fn id_of(segment: Seq<u8>) -> Option<i64> {
    let digits = digits_of(segment);
    let value = signed_value(segment);
    if digits.len() > 0 && all_digits(digits) && i64::MIN <= value <= i64::MAX {
        Some(value as i64)
    } else {
        None
    }
}

/// The route table: `POST /users`, and `GET /users/{id}`, where an id that
/// does not read as one is a bad request. Everything else is no route.
pub open spec fn route_of(method: Method, path: Seq<u8>) -> Route {
    if method == Method::Post && path == users_path() {
        Route::CreateUser
    } else if method == Method::Get && user_segment(path) is Some {
        match id_of(user_segment(path)->Some_0) {
            Some(id) => Route::GetUser(id),
            None => Route::BadRequest,
        }
    } else {
        Route::NotFound
    }
}

/// The bytes of the two paths of the table, one by one.
proof fn lemma_users_bytes()
    ensures
        users_path().len() == 6,
        users_prefix().len() == 7,
        forall|k: int| 0 <= k < 6 ==> users_prefix()[k] == users_path()[k],
        users_path()[0] == 0x2f,
        users_path()[1] == 0x75,
        users_path()[2] == 0x73,
        users_path()[3] == 0x65,
        users_path()[4] == 0x72,
        users_path()[5] == 0x73,
        users_prefix()[6] == 0x2f,
{
}

/// A number written with digits is at least the number that any of its
/// beginnings writes.
proof fn lemma_prefix_value(digits: Seq<u8>, k: int)
    requires
        all_digits(digits),
        0 <= k <= digits.len(),
    ensures
        0 <= digits_value(digits.take(k)) <= digits_value(digits),
    decreases digits.len(),
{
    if k == digits.len() {
        assert(digits.take(k) =~= digits);
        if digits.len() > 0 {
            lemma_prefix_value(digits.drop_last(), k - 1);
            assert(digits.drop_last().take(k - 1) =~= digits.drop_last());
            assert(is_digit(digits[digits.len() - 1]));
        }
    } else {
        lemma_prefix_value(digits.drop_last(), k);
        assert(digits.drop_last().take(k) =~= digits.take(k));
        assert(is_digit(digits[digits.len() - 1]));
    }
}

/// Reads the id that `bytes` writes from position `from` on.
fn parse_id_from(bytes: &[u8], from: usize) -> (id: Option<i64>)
    requires
        from <= bytes.len(),
    ensures
        id == id_of(bytes@.skip(from as int)),
{
    let ghost segment = bytes@.skip(from as int);
    let n: usize = bytes.len();
    if from == n {
        return None;
    }
    let first: u8 = bytes[from];
    let negative: bool = first == 0x2d;
    let start: usize = if first == 0x2b || first == 0x2d {
        from + 1
    } else {
        from
    };
    let ghost digits = digits_of(segment);
    assert(digits =~= bytes@.skip(start as int));
    if start == n {
        return None;
    }
    let limit: u64 = if negative {
        9223372036854775808
    } else {
        9223372036854775807
    };
    let mut magnitude: u64 = 0;
    let mut i: usize = start;
    while i < n
        invariant
            start <= i <= n,
            n == bytes.len(),
            digits == bytes@.skip(start as int),
            segment == bytes@.skip(from as int),
            digits == digits_of(segment),
            segment.len() > 0,
            negative == (segment[0] == 0x2du8),
            limit == if negative { 9223372036854775808u64 } else { 9223372036854775807u64 },
            all_digits(digits.take(i - start)),
            magnitude == digits_value(digits.take(i - start)),
            magnitude <= limit,
        decreases n - i,
    {
        let byte: u8 = bytes[i];
        assert(digits[i - start] == byte);
        if byte < 0x30 || byte > 0x39 {
            assert(!is_digit(digits[i - start]));
            return None;
        }
        let digit: u64 = (byte - 0x30) as u64;
        proof {
            let longer = digits.take(i - start + 1);
            assert(longer.drop_last() =~= digits.take(i - start));
            assert(longer.last() == byte);
            assert(all_digits(longer)) by {
                assert forall|j: int| 0 <= j < longer.len() implies is_digit(
                    #[trigger] longer[j],
                ) by {
                    if j < i - start {
                        assert(digits.take(i - start)[j] == longer[j]);
                    }
                }
            }
        }
        if magnitude > (limit - digit) / 10 {
            proof {
                if all_digits(digits) {
                    lemma_prefix_value(digits, i - start + 1);
                }
            }
            return None;
        }
        magnitude = magnitude * 10 + digit;
        i = i + 1;
    }
    assert(digits.take(i - start) =~= digits);
    if negative {
        if magnitude == 9223372036854775808 {
            Some(i64::MIN)
        } else {
            Some(-(magnitude as i64))
        }
    } else {
        Some(magnitude as i64)
    }
}

/// Reads a path segment as an id.
pub fn parse_id(segment: &str) -> (id: Option<i64>)
    ensures
        id == id_of(segment.spec_bytes()),
{
    let bytes = segment.as_bytes();
    assert(bytes@.skip(0) =~= bytes@);
    parse_id_from(bytes, 0)
}

/// Looks a request up in the route table.
pub fn route(method: Method, path: &str) -> (route: Route)
    ensures
        route == route_of(method, path.spec_bytes()),
{
    let bytes = path.as_bytes();
    let n: usize = bytes.len();
    proof {
        lemma_users_bytes();
        if n > 7 {
            assert forall|k: int| 0 <= k < 7 implies #[trigger] bytes@.take(7)[k] == bytes@[k] by {}
        }
    }
    if n < 6 || bytes[0] != 0x2f || bytes[1] != 0x75 || bytes[2] != 0x73 || bytes[3] != 0x65
        || bytes[4] != 0x72 || bytes[5] != 0x73 {
        return Route::NotFound;
    }
    if n == 6 {
        assert(bytes@ =~= users_path());
        return match method {
            Method::Post => Route::CreateUser,
            _ => Route::NotFound,
        };
    }
    if n == 7 || bytes[6] != 0x2f {
        return Route::NotFound;
    }
    assert(bytes@.take(7) =~= users_prefix());
    let ghost segment = bytes@.skip(7);
    let mut i: usize = 7;
    while i < n
        invariant
            7 <= i <= n,
            n == bytes.len(),
            segment == bytes@.skip(7),
            bytes@ == path.spec_bytes(),
            bytes@ != users_path(),
            forall|k: int| 0 <= k < i - 7 ==> segment[k] != 0x2fu8,
        decreases n - i,
    {
        if bytes[i] == 0x2f {
            assert(segment[i - 7] == 0x2fu8);
            assert(segment.contains(0x2fu8));
            return Route::NotFound;
        }
        i = i + 1;
    }
    assert(!segment.contains(0x2fu8));
    match method {
        Method::Get => match parse_id_from(bytes, 7) {
            Some(id) => Route::GetUser(id),
            None => Route::BadRequest,
        },
        _ => Route::NotFound,
    }
}

/// The decimal digits that write a natural number, without leading zeros.
pub open spec fn digits_for(n: nat) -> Seq<u8>
    decreases n,
{
    if n < 10 {
        seq![(0x30 + n) as u8]
    } else {
        digits_for(n / 10).push((0x30 + n % 10) as u8)
    }
}

/// The segment that writes an id in decimal, with `-` before a negative
/// one.
pub open spec fn segment_for(id: i64) -> Seq<u8> {
    if id < 0 {
        seq![0x2du8] + digits_for((-id) as nat)
    } else {
        digits_for(id as nat)
    }
}

/// The path of the user with this id: `/users/` and the id in decimal.
pub open spec fn user_path_for(id: i64) -> Seq<u8> {
    users_prefix() + segment_for(id)
}

/// The digits that write a number are digits, and write that number.
pub proof fn lemma_digits_for(n: nat)
    ensures
        digits_for(n).len() > 0,
        all_digits(digits_for(n)),
        digits_value(digits_for(n)) == n,
    decreases n,
{
    if n < 10 {
        let digits = digits_for(n);
        assert(digits.drop_last() =~= Seq::<u8>::empty());
        assert(digits_value(digits.drop_last()) == 0);
    } else {
        lemma_digits_for(n / 10);
        let digits = digits_for(n);
        assert(digits.drop_last() =~= digits_for(n / 10));
        assert forall|i: int| 0 <= i < digits.len() implies is_digit(#[trigger] digits[i]) by {
            if i < digits.len() - 1 {
                assert(digits[i] == digits_for(n / 10)[i]);
            }
        }
    }
}

/// Every id is read back from the segment that writes it.
pub proof fn lemma_segment_reads_back(id: i64)
    ensures
        id_of(segment_for(id)) == Some(id),
        !segment_for(id).contains(0x2fu8),
        segment_for(id).len() > 0,
{
    let segment = segment_for(id);
    if id < 0 {
        let digits = digits_for((-id) as nat);
        lemma_digits_for((-id) as nat);
        assert(segment[0] == 0x2du8);
        assert(segment.skip(1) =~= digits);
        assert forall|i: int| 0 <= i < segment.len() implies segment[i] != 0x2fu8 by {
            if i > 0 {
                assert(is_digit(digits[i - 1]));
            }
        }
    } else {
        lemma_digits_for(id as nat);
        assert(is_digit(segment[0]));
        assert forall|i: int| 0 <= i < segment.len() implies segment[i] != 0x2fu8 by {
            assert(is_digit(segment[i]));
        }
    }
}

/// `GET` on the path of a user's id is routed to the query for that id, and
/// `POST` on `/users` to the command.
pub proof fn lemma_routes_reach_handlers(id: i64)
    ensures
        route_of(Method::Get, user_path_for(id)) == Route::GetUser(id),
        route_of(Method::Post, users_path()) == Route::CreateUser,
{
    lemma_segment_reads_back(id);
    let path = user_path_for(id);
    assert(path.take(7) =~= users_prefix());
    assert(path.skip(7) =~= segment_for(id));
    assert(path != users_path());
}

/// A request that is neither `POST /users` nor `GET` on `/users/` with one
/// segment after it is no route.
pub proof fn lemma_unknown_request_is_no_route(method: Method, path: Seq<u8>)
    requires
        !(method == Method::Post && path == users_path()),
        !(method == Method::Get && user_segment(path) is Some),
    ensures
        route_of(method, path) == Route::NotFound,
{
}

/// A path that the table does not have is no route, whatever the method.
pub proof fn lemma_unknown_path_is_no_route(method: Method, path: Seq<u8>)
    requires
        path != users_path(),
        user_segment(path) is None,
    ensures
        route_of(method, path) == Route::NotFound,
{
}

} // verus!
