//! The embedded web/WebSocket server: who may connect, what is served, and how the
//! protocol with a client runs. Sockets, routing and the actions themselves are left
//! to the caller.

pub mod assets;
pub mod gate;
pub mod protocol;
pub mod socket;

use vstd::prelude::*;

verus! {

/// WebSocket server port
pub const WS_PORT: u16 = 9210;

/// The route of the WebSocket.
pub const WS_ROUTE: &'static str = "/ws";

/// The route of the health check.
pub const HEALTH_ROUTE: &'static str = "/health";

/// The route of the server's description.
pub const INFO_ROUTE: &'static str = "/info";

/// An HTTP response that the server gives itself.
#[derive(Debug)]
pub enum Response {
    /// A plain text with a status code.
    Text { status: u16, body: String },
    /// A file, with status 200.
    File { content_type: String, data: Vec<u8> },
}

impl Response {
    /// Whether this is the plain text `body` with the code `status`.
    pub open spec fn is_text(self, status: u16, body: Seq<char>) -> bool {
        match self {
            Response::Text { status: s, body: b } => s == status && b@ == body,
            _ => false,
        }
    }

    /// Whether this is a file with this content type and these bytes.
    pub open spec fn is_file(self, content_type: Seq<char>, data: Seq<u8>) -> bool {
        match self {
            Response::File { content_type: t, data: d } => t@ == content_type && d@ == data,
            _ => false,
        }
    }
}

/// What the server says of itself.
#[derive(Debug)]
pub struct ServerInfo {
    pub name: String,
    pub version: String,
}

/// The answer to a health check.
pub fn health() -> (body: &'static str)
    ensures
        body@ == "ok"@,
{
    "ok"
}

/// The description of a server of this version.
pub fn info(version: &str) -> (info: ServerInfo)
    ensures
        info.name@ == "c9watch"@,
        info.version@ == version@,
{
    ServerInfo { name: "c9watch".to_string(), version: version.to_string() }
}

/// The decimal digits of `n`.
pub open spec fn decimal(n: nat) -> Seq<char>
    decreases n,
{
    if n < 10 {
        seq![('0' as u32 + n) as char]
    } else {
        decimal(n / 10).push(('0' as u32 + n % 10) as char)
    }
}

/// `n` in decimal digits.
fn decimal_text(n: u16) -> (text: String)
    ensures
        text@ == decimal(n as nat),
    decreases n,
{
    let digit: usize = (n % 10) as usize;
    let digits = "0123456789";
    proof {
        reveal_strlit("0123456789");
    }
    let last = digits.substring_char(digit, digit + 1);
    assert(last@ =~= seq![('0' as u32 + n % 10) as char]);
    if n < 10 {
        last.to_string()
    } else {
        let text = decimal_text(n / 10).concat(last);
        assert(text@ =~= decimal(n as nat));
        text
    }
}

/// The address to listen on. `[::]` accepts both IPv4 and IPv6 (localhost can
/// resolve to `::1`).
pub fn listen_address(port: u16) -> (address: String)
    ensures
        address@ == "[::]:"@ + decimal(port as nat),
{
    let digits = decimal_text(port);
    "[::]:".to_string().concat(digits.as_str())
}

/// The number that a text of decimal digits stands for.
pub open spec fn number(digits: Seq<char>) -> int
    decreases digits.len(),
{
    if digits.len() == 0 {
        0
    } else {
        10 * number(digits.drop_last()) + (digits.last() as int - '0' as int)
    }
}

proof fn lemma_decimal(n: nat)
    ensures
        decimal(n).len() > 0,
        forall|i: int| 0 <= i < decimal(n).len() ==> '0' <= #[trigger] decimal(n)[i] <= '9',
        decimal(n).len() > 1 ==> decimal(n)[0] != '0',
        n > 0 ==> decimal(n)[0] != '0',
        number(decimal(n)) == n,
    decreases n,
{
    reveal_with_fuel(number, 2);
    if n < 10 {
        assert(decimal(n).drop_last() =~= Seq::empty());
    } else {
        lemma_decimal(n / 10);
        assert(decimal(n).drop_last() =~= decimal(n / 10));
        assert(decimal(n)[0] == decimal(n / 10)[0]);
    }
}

/// The address to listen on is every IPv6 and IPv4 address of the machine, followed by
/// the port: digits that stand for just that number, without leading zeros.
pub proof fn law_listen_address_ends_in_the_port(port: u16, address: String)
    requires
        call_ensures(listen_address, (port,), address),
    ensures
        address@.len() > 5,
        address@.take(5) == "[::]:"@,
        forall|i: int| 5 <= i < address@.len() ==> '0' <= #[trigger] address@[i] <= '9',
        address@.len() > 6 ==> address@[5] != '0',
        number(address@.skip(5)) == port,
{
    reveal_strlit("[::]:");
    lemma_decimal(port as nat);
    let digits = decimal(port as nat);
    assert(address@.take(5) =~= "[::]:"@);
    assert(address@.skip(5) =~= digits);
    assert forall|i: int| 5 <= i < address@.len() implies '0' <= #[trigger] address@[i] <= '9' by {
        assert(address@[i] == digits[i - 5]);
    }
    assert(address@[5] == digits[0]);
}

/// The server tells its name and the version it was given, and that it is well.
pub proof fn law_server_tells_its_name(
    version: &str,
    about: ServerInfo,
    body: &'static str,
)
    requires
        call_ensures(info, (version,), about),
        call_ensures(health, (), body),
    ensures
        about.name@ == "c9watch"@,
        about.version@ == version@,
        body@ == "ok"@,
{
}

/// The routes and the port that clients know the server by.
pub proof fn law_routes_are_those_that_clients_know()
    ensures
        WS_ROUTE@ == "/ws"@,
        HEALTH_ROUTE@ == "/health"@,
        INFO_ROUTE@ == "/info"@,
        WS_PORT == 9210,
{
}

} // verus!
