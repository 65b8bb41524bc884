//! The connection handler's pure part: which resource and status a request
//! line gets, and the bytes of the response that carries a resource.
use vstd::prelude::*;

verus! {

/// How long, in seconds, the slow route waits before it responds.
pub const SLEEP_DELAY_SECS: u64 = 5;

/// The routes that a request line can select.
#[derive(PartialEq, Eq, Structural, Clone, Copy, Debug)]
pub enum Route {
    /// `GET / HTTP/1.1`: the root resource.
    Index,
    /// `GET /sleep HTTP/1.1`: a resource served after a fixed delay.
    Sleep,
    /// Anything else: the not-found resource.
    NotFound,
}

/// The route of a request line.
pub open spec fn route_of(line: Seq<char>) -> Route {
    if line == "GET / HTTP/1.1"@ {
        Route::Index
    } else if line == "GET /sleep HTTP/1.1"@ {
        Route::Sleep
    } else {
        Route::NotFound
    }
}

/// Whether two strings hold the same characters.
pub fn same_text(a: &str, b: &str) -> (r: bool)
    ensures
        r == (a@ == b@),
{
    let n = a.unicode_len();
    if n != b.unicode_len() {
        return false;
    }
    let mut i: usize = 0;
    while i < n
        invariant
            n == a@.len() == b@.len(),
            i <= n,
            forall|k: int| 0 <= k < i ==> a@[k] == b@[k],
        decreases n - i,
    {
        if a.get_char(i) != b.get_char(i) {
            return false;
        }
        i = i + 1;
    }
    assert(a@ =~= b@);
    true
}

/// Classifies a request line into its route.
pub fn route(line: &str) -> (r: Route)
    ensures
        r == route_of(line@),
{
    if same_text(line, "GET / HTTP/1.1") {
        Route::Index
    } else if same_text(line, "GET /sleep HTTP/1.1") {
        Route::Sleep
    } else {
        Route::NotFound
    }
}

impl Route {
    /// The name of the resource file that this route serves.
    pub fn file_name(self) -> (r: &'static str)
        ensures
            self == Route::Index ==> r@ == "index.html"@,
            self == Route::Sleep ==> r@ == "sleep.html"@,
            self == Route::NotFound ==> r@ == "404.html"@,
    {
        match self {
            Route::Index => "index.html",
            Route::Sleep => "sleep.html",
            Route::NotFound => "404.html",
        }
    }

    /// The status phrase of the response on this route.
    pub fn status(self) -> (r: &'static str)
        ensures
            self == Route::NotFound ==> r@ == "404 NOT FOUND"@,
            self != Route::NotFound ==> r@ == "200 OK"@,
    {
        match self {
            Route::NotFound => "404 NOT FOUND",
            _ => "200 OK",
        }
    }

    /// How many seconds to wait before responding on this route.
    pub fn delay_secs(self) -> (r: u64)
        ensures
            self == Route::Sleep ==> r == SLEEP_DELAY_SECS,
            self != Route::Sleep ==> r == 0,
    {
        match self {
            Route::Sleep => SLEEP_DELAY_SECS,
            _ => 0,
        }
    }
}

/// The character of a decimal digit.
pub open spec fn digit_char(d: nat) -> char {
    if d == 0 {
        '0'
    } else if d == 1 {
        '1'
    } else if d == 2 {
        '2'
    } else if d == 3 {
        '3'
    } else if d == 4 {
        '4'
    } else if d == 5 {
        '5'
    } else if d == 6 {
        '6'
    } else if d == 7 {
        '7'
    } else if d == 8 {
        '8'
    } else {
        '9'
    }
}

/// A natural number written in decimal, without leading zeros.
pub open spec fn decimal(n: nat) -> Seq<char>
    decreases n,
{
    if n < 10 {
        seq![digit_char(n)]
    } else {
        decimal(n / 10).push(digit_char(n % 10))
    }
}

/// The full text of a response with the status phrase `status` whose body is
/// `body`, `body_len` bytes long: a status line, a `Content-Length` header, a
/// blank line, then the body, each line ended by carriage return and line
/// feed.
pub open spec fn response_text(status: Seq<char>, body: Seq<char>, body_len: nat) -> Seq<char> {
    "HTTP/1.1 "@ + status + "\r\n"@ + "Content-Length: "@ + decimal(body_len) + "\r\n\r\n"@ + body
        + "\r\n\r\n"@
}

/// The one-character text of a decimal digit.
fn digit_text(d: usize) -> (r: &'static str)
    requires
        d < 10,
    ensures
        r@ == seq![digit_char(d as nat)],
{
    proof {
        reveal_strlit("0");
        reveal_strlit("1");
        reveal_strlit("2");
        reveal_strlit("3");
        reveal_strlit("4");
        reveal_strlit("5");
        reveal_strlit("6");
        reveal_strlit("7");
        reveal_strlit("8");
        reveal_strlit("9");
    }
    if d == 0 {
        "0"
    } else if d == 1 {
        "1"
    } else if d == 2 {
        "2"
    } else if d == 3 {
        "3"
    } else if d == 4 {
        "4"
    } else if d == 5 {
        "5"
    } else if d == 6 {
        "6"
    } else if d == 7 {
        "7"
    } else if d == 8 {
        "8"
    } else {
        "9"
    }
}

/// Appends `n` in decimal to `out`.
pub fn push_decimal(out: &mut String, n: usize)
    ensures
        final(out)@ == old(out)@ + decimal(n as nat),
    decreases n,
{
    if n >= 10 {
        push_decimal(out, n / 10);
    }
    out.append(digit_text(n % 10));
    proof {
        if n >= 10 {
            assert(old(out)@ + decimal(n as nat) =~= old(out)@ + decimal((n / 10) as nat) + seq![
                digit_char((n % 10) as nat),
            ]);
        } else {
            assert(old(out)@ + decimal(n as nat) =~= old(out)@ + seq![digit_char(n as nat)]);
        }
    }
}

/// The response that carries `body` with the status phrase `status`; its
/// `Content-Length` is the body's length in bytes.
pub fn format_response(status: &str, body: &str) -> (r: String)
    ensures
        r@ == response_text(status@, body@, body.len() as nat),
{
    let mut out = String::from_str("HTTP/1.1 ");
    out.append(status);
    out.append("\r\n");
    out.append("Content-Length: ");
    push_decimal(&mut out, body.len());
    out.append("\r\n\r\n");
    out.append(body);
    out.append("\r\n\r\n");
    assert(out@ =~= response_text(status@, body@, body.len() as nat));
    out
}

} // verus!
