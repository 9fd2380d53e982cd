//! Saved daemon connections: parsing an address, saving, choosing and
//! removing connections, and what listing them prints.

use vstd::prelude::*;
use crate::commands::ConnectionsSub;
use crate::config::{Config, Connection};
use crate::pairs::{
    assoc, find_key, has_key, keys_distinct, lemma_assoc_dom, lemma_assoc_index,
    lemma_assoc_remove, lemma_assoc_update, lemma_push_distinct, string_views,
};
use crate::text::{concat3, owned, str_equal};

verus! {

/// The port used when an address gives none, or one that is not a number.
pub const DEFAULT_PORT: u16 = 4000;

pub open spec fn is_digit(c: char) -> bool {
    '0' <= c && c <= '9'
}

/// The number that a string of decimal digits writes.
pub open spec fn digits_value(s: Seq<char>) -> nat
    decreases s.len(),
{
    if s.len() == 0 {
        0
    } else {
        digits_value(s.drop_last()) * 10 + ((s.last() as u32) - ('0' as u32)) as nat
    }
}

/// The string without its leading `+`, if it has one.
pub open spec fn unsigned_part(s: Seq<char>) -> Seq<char> {
    if s.len() > 0 && s[0] == '+' {
        s.drop_first()
    } else {
        s
    }
}

/// Every character is a decimal digit.
pub open spec fn all_digits(d: Seq<char>) -> bool {
    forall|i: int| 0 <= i < d.len() ==> is_digit(#[trigger] d[i])
}

/// A port number as `u16`'s `FromStr` reads it: an optional `+`, then one
/// or more decimal digits whose value fits in 16 bits.
pub open spec fn port_of(s: Seq<char>) -> Option<u16> {
    let d = unsigned_part(s);
    if d.len() > 0 && all_digits(d) && digits_value(d) <= u16::MAX {
        Some(digits_value(d) as u16)
    } else {
        None
    }
}

/// `i` is the position of the first `:` in `s`.
pub open spec fn first_colon(s: Seq<char>, i: int) -> bool {
    0 <= i < s.len() && s[i] == ':' && forall|j: int| 0 <= j < i ==> s[j] != ':'
}

/// The host and port that a `host[:port]` argument names: the part before the
/// first `:`, and the port after it, or the default port when there is none
/// or it does not read as one.
pub open spec fn address_of(s: Seq<char>) -> (Seq<char>, u16) {
    if exists|i: int| first_colon(s, i) {
        let i = choose|i: int| first_colon(s, i);
        (
            s.take(i),
            match port_of(s.skip(i + 1)) {
                Some(p) => p,
                None => DEFAULT_PORT,
            },
        )
    } else {
        (s, DEFAULT_PORT)
    }
}

proof fn lemma_digits_monotone(d: Seq<char>, i: int)
    requires
        0 <= i <= d.len(),
        all_digits(d),
    ensures
        digits_value(d.take(i)) <= digits_value(d),
    decreases d.len(),
{
    if i < d.len() {
        let t = d.drop_last();
        assert(d.take(i) =~= t.take(i));
        lemma_digits_monotone(t, i);
        assert(d.take(d.len() as int) =~= d);
    } else {
        assert(d.take(i) =~= d);
    }
}

/// Reads a port number (see `port_of`).
pub fn parse_port(s: &str) -> (r: Option<u16>)
    ensures
        r == port_of(s@),
{
    let n = s.unicode_len();
    let mut start: usize = 0;
    if n > 0 && s.get_char(0) == '+' {
        start = 1;
    }
    let ghost d = s@.skip(start as int);
    assert(d =~= unsigned_part(s@));
    if start == n {
        return None;
    }
    let mut value: u32 = 0;
    let mut i: usize = start;
    while i < n
        invariant
            start <= i <= n,
            n == s@.len(),
            start < n,
            d == s@.skip(start as int),
            d == unsigned_part(s@),
            value as nat == digits_value(d.take(i - start)),
            value <= u16::MAX,
            forall|j: int| 0 <= j < i - start ==> is_digit(#[trigger] d[j]),
        decreases n - i,
    {
        let c = s.get_char(i);
        assert(c == d[i - start]);
        if !('0' <= c && c <= '9') {
            assert(!is_digit(d[i - start]));
            return None;
        }
        assert(d.take(i - start + 1).drop_last() =~= d.take(i - start));
        let next = value * 10 + (c as u32 - '0' as u32);
        if next > 65535 {
            proof {
                if all_digits(d) {
                    lemma_digits_monotone(d, i - start + 1);
                }
            }
            return None;
        }
        value = next;
        i = i + 1;
    }
    assert(d.take(i - start) =~= d);
    Some(value as u16)
}

/// Splits a `host[:port]` argument (see `address_of`).
pub fn split_address(address: &str) -> (r: (String, u16))
    ensures
        (r.0@, r.1) == address_of(address@),
{
    let n = address.unicode_len();
    let mut i: usize = 0;
    while i < n
        invariant
            i <= n,
            n == address@.len(),
            forall|j: int| 0 <= j < i ==> address@[j] != ':',
        decreases n - i,
    {
        if address.get_char(i) == ':' {
            assert(first_colon(address@, i as int));
            proof {
                let k = choose|k: int| first_colon(address@, k);
                assert(k == i) by {
                    if k < i {
                        assert(address@[k] != ':');
                    }
                    if k > i {
                        assert(address@[i as int] != ':');
                    }
                }
            }
            let host = owned(address.substring_char(0, i));
            let port = match parse_port(address.substring_char(i + 1, n)) {
                Some(p) => p,
                None => DEFAULT_PORT,
            };
            assert(address@.subrange(0, i as int) =~= address@.take(i as int));
            assert(address@.subrange(i + 1, n as int) =~= address@.skip(i + 1));
            return (host, port);
        }
        i = i + 1;
    }
    assert(!exists|k: int| first_colon(address@, k));
    (owned(address), DEFAULT_PORT)
}

/// The character of a decimal digit.
pub open spec fn digit_char(d: nat) -> char {
    if d == 0 {
        '0'
    } else if d == 1 {
        '1'
    } else if d == 2 {
        '2'
    } else if d == 3 {
        '3'
    } else if d == 4 {
        '4'
    } else if d == 5 {
        '5'
    } else if d == 6 {
        '6'
    } else if d == 7 {
        '7'
    } else if d == 8 {
        '8'
    } else {
        '9'
    }
}

/// A number written in decimal, without leading zeros.
pub open spec fn decimal_text(n: nat) -> Seq<char>
    decreases n,
{
    if n < 10 {
        seq![digit_char(n)]
    } else {
        decimal_text(n / 10).push(digit_char(n % 10))
    }
}

fn digit_text(d: u16) -> (r: &'static str)
    requires
        d < 10,
    ensures
        r@ == seq![digit_char(d as nat)],
{
    proof {
        reveal_strlit("0");
        reveal_strlit("1");
        reveal_strlit("2");
        reveal_strlit("3");
        reveal_strlit("4");
        reveal_strlit("5");
        reveal_strlit("6");
        reveal_strlit("7");
        reveal_strlit("8");
        reveal_strlit("9");
    }
    let r = if d == 0 {
        "0"
    } else if d == 1 {
        "1"
    } else if d == 2 {
        "2"
    } else if d == 3 {
        "3"
    } else if d == 4 {
        "4"
    } else if d == 5 {
        "5"
    } else if d == 6 {
        "6"
    } else if d == 7 {
        "7"
    } else if d == 8 {
        "8"
    } else {
        "9"
    };
    assert(r@ =~= seq![digit_char(d as nat)]);
    r
}

/// Writes a port number in decimal.
pub fn decimal(n: u16) -> (r: String)
    ensures
        r@ == decimal_text(n as nat),
    decreases n,
{
    if n < 10 {
        owned(digit_text(n))
    } else {
        let mut r = decimal(n / 10);
        r.append(digit_text(n % 10));
        assert(r@ =~= decimal_text(n as nat));
        r
    }
}

/// The configuration's connection list with `name` set to `conn`: a known
/// name keeps its place, a new one goes last.
fn set_connection(config: &mut Config, name: String, conn: Connection)
    requires
        old(config).wf(),
    ensures
        final(config).wf(),
        final(config).connection_map() == old(config).connection_map().insert(name@, conn),
        final(config).default == old(config).default,
        final(config).last_set_env == old(config).last_set_env,
        final(config).runtime_injection == old(config).runtime_injection,
{
    let ghost s = config.connection_list();
    let ghost n = name@;
    proof {
        lemma_assoc_dom(s, n);
    }
    match find_key(&config.connections, name.as_str()) {
        Some(i) => {
            config.connections.set(i, (name, conn));
            proof {
                assert(config.connection_list() =~= s.update(i as int, (s[i as int].0, conn)));
                lemma_assoc_update(s, i as int, conn);
            }
        },
        None => {
            config.connections.push((name, conn));
            proof {
                assert(config.connection_list() =~= s.push((n, conn)));
                lemma_push_distinct(s, n, conn);
                assert(s.push((n, conn)).drop_last() =~= s);
            }
        },
    }
}

/// Saves a connection to `address` under the name `save` (`default` when
/// absent), and makes it the default when asked or when there is no default
/// yet. Gives the name used.
pub fn connect(
    config: &mut Config,
    address: &str,
    username: Option<String>,
    password: Option<String>,
    save: Option<String>,
    make_default: bool,
) -> (r: String)
    requires
        old(config).wf(),
    ensures
        final(config).wf(),
        r@ == match save {
            Some(n) => n@,
            None => "default"@,
        },
        final(config).connection_map().contains_key(r@),
        (final(config).connection_map()[r@].host@, final(config).connection_map()[r@].port)
            == address_of(address@),
        final(config).connection_map()[r@].username == username,
        final(config).connection_map()[r@].password == password,
        final(config).connection_map().remove(r@) == old(config).connection_map().remove(r@),
        make_default || old(config).default is None ==> (final(config).default matches Some(d)
            && d@ == r@),
        !make_default && old(config).default is Some ==> final(config).default == old(config).default,
        final(config).last_set_env == old(config).last_set_env,
        final(config).runtime_injection == old(config).runtime_injection,
{
    let (host, port) = split_address(address);
    let conn = Connection { host, port, username, password };
    let name = match save {
        Some(n) => n,
        None => owned("default"),
    };
    set_connection(config, name.clone(), conn);
    assert(config.connection_map().remove(name@) =~= old(config).connection_map().remove(name@));
    if make_default || config.default.is_none() {
        config.default = Some(name.clone());
    }
    name
}

/// Makes `name` the default connection, if it is saved; tells whether it is.
pub fn use_connection(config: &mut Config, name: &str) -> (r: bool)
    requires
        old(config).wf(),
    ensures
        final(config).wf(),
        r == old(config).connection_map().contains_key(name@),
        r ==> (final(config).default matches Some(d) && d@ == name@),
        !r ==> final(config).default == old(config).default,
        final(config).connections == old(config).connections,
        final(config).last_set_env == old(config).last_set_env,
        final(config).runtime_injection == old(config).runtime_injection,
{
    proof {
        lemma_assoc_dom(config.connection_list(), name@);
    }
    match find_key(&config.connections, name) {
        Some(i) => {
            assert(config.connection_list()[i as int].0 == name@);
            config.default = Some(owned(name));
            true
        },
        None => {
            assert(!has_key(config.connection_list(), name@));
            false
        },
    }
}

/// The default connection is `name`.
pub open spec fn names_default(config: Config, name: Seq<char>) -> bool {
    config.default matches Some(d) && d@ == name
}

/// Removes the connection `name`, if it is saved; tells whether it was. When
/// it was the default, the first remaining connection becomes the default, or
/// none when none remains.
pub fn remove_connection(config: &mut Config, name: &str) -> (r: bool)
    requires
        old(config).wf(),
    ensures
        final(config).wf(),
        r == old(config).connection_map().contains_key(name@),
        final(config).connection_map() == old(config).connection_map().remove(name@),
        !r ==> *final(config) == *old(config),
        r && names_default(*old(config), name@) ==> if final(config).connection_list().len() == 0 {
            final(config).default is None
        } else {
            names_default(*final(config), final(config).connection_list()[0].0)
        },
        r && !names_default(*old(config), name@) ==> final(config).default == old(config).default,
        final(config).last_set_env == old(config).last_set_env,
        final(config).runtime_injection == old(config).runtime_injection,
{
    let ghost s = config.connection_list();
    proof {
        lemma_assoc_dom(s, name@);
    }
    match find_key(&config.connections, name) {
        Some(i) => {
            config.connections.remove(i);
            proof {
                assert(config.connection_list() =~= s.remove(i as int));
                lemma_assoc_remove(s, i as int);
            }
            let was_default = match &config.default {
                Some(d) => str_equal(d.as_str(), name),
                None => false,
            };
            if was_default {
                config.default = if config.connections.len() > 0 {
                    Some(config.connections[0].0.clone())
                } else {
                    None
                };
            }
            true
        },
        None => {
            assert(!has_key(s, name@));
            assert(config.connection_map().remove(name@) =~= config.connection_map());
            false
        },
    }
}

/// The listing line of one saved connection.
pub open spec fn connection_line(config: Config, name: Seq<char>, conn: Connection) -> Seq<char> {
    "  "@ + name + ": "@ + conn.host@ + ":"@ + decimal_text(conn.port as nat) + if names_default(
        config,
        name,
    ) {
        " (default)"@
    } else {
        ""@
    }
}

/// What listing the saved connections prints.
pub open spec fn listing_lines(config: Config) -> Seq<Seq<char>> {
    let list = config.connection_list();
    if list.len() == 0 {
        seq!["No saved connections."@]
    } else {
        seq!["Saved connections:"@].add(
            list.map_values(|e: (Seq<char>, Connection)| connection_line(config, e.0, e.1)),
        )
    }
}

/// What showing the default connection prints.
pub open spec fn show_line(config: Config) -> Seq<char> {
    match config.default {
        Some(d) => if config.connection_map().contains_key(d@) {
            "Current connection ("@ + d@ + "): "@ + config.connection_map()[d@].host@ + ":"@
                + decimal_text(config.connection_map()[d@].port as nat)
        } else {
            "Default connection '"@ + d@ + "' not found."@
        },
        None => "No default connection set."@,
    }
}

pub open spec fn no_such_connection_message(name: Seq<char>) -> Seq<char> {
    "No such connection: '"@ + name + "'"@
}

/// What a `connections` subcommand comes to.
pub enum ConnectionsOutcome {
    /// Lines to print; the configuration is unchanged.
    Print(Vec<String>),
    /// The configuration changed and is to be saved; then this line is printed.
    Saved(String),
    /// The error to report; the configuration is unchanged.
    Failed(String),
}

/// The outcome prints exactly these lines.
pub open spec fn prints(r: ConnectionsOutcome, lines: Seq<Seq<char>>) -> bool {
    r matches ConnectionsOutcome::Print(v) && string_views(v@) == lines
}

fn connection_text(config: &Config, i: usize) -> (r: String)
    requires
        i < config.connections@.len(),
    ensures
        r@ == connection_line(
            *config,
            config.connection_list()[i as int].0,
            config.connection_list()[i as int].1,
        ),
{
    let name = &config.connections[i].0;
    let conn = &config.connections[i].1;
    let mut r = concat3("  ", name.as_str(), ": ");
    r.append(conn.host.as_str());
    r.append(":");
    let port = decimal(conn.port);
    r.append(port.as_str());
    let is_default = match &config.default {
        Some(d) => str_equal(d.as_str(), name.as_str()),
        None => false,
    };
    proof {
        reveal_strlit("");
    }
    if is_default {
        r.append(" (default)");
    } else {
        assert(r@ + ""@ =~= r@);
    }
    r
}

/// Runs a `connections` subcommand against the configuration.
pub fn run(config: &mut Config, sub: &ConnectionsSub) -> (r: ConnectionsOutcome)
    requires
        old(config).wf(),
    ensures
        final(config).wf(),
        match *sub {
            ConnectionsSub::List => *final(config) == *old(config) && prints(
                r,
                listing_lines(*old(config)),
            ),
            ConnectionsSub::Show => *final(config) == *old(config) && prints(
                r,
                seq![show_line(*old(config))],
            ),
            ConnectionsSub::Use { name } => if old(config).connection_map().contains_key(name@) {
                &&& r matches ConnectionsOutcome::Saved(m) && m@ == "Default connection set to '"@
                    + name@ + "'"@
                &&& names_default(*final(config), name@)
                &&& final(config).connections == old(config).connections
                &&& final(config).last_set_env == old(config).last_set_env
                &&& final(config).runtime_injection == old(config).runtime_injection
            } else {
                &&& r matches ConnectionsOutcome::Failed(m) && m@ == no_such_connection_message(
                    name@,
                )
                &&& *final(config) == *old(config)
            },
            ConnectionsSub::Remove { name } => if old(config).connection_map().contains_key(
                name@,
            ) {
                &&& r matches ConnectionsOutcome::Saved(m) && m@ == "Connection '"@ + name@
                    + "' removed."@
                &&& final(config).connection_map() == old(config).connection_map().remove(name@)
                &&& names_default(*old(config), name@) ==> if final(config).connection_list().len() == 0 {
                    final(config).default is None
                } else {
                    names_default(*final(config), final(config).connection_list()[0].0)
                }
                &&& !names_default(*old(config), name@) ==> final(config).default == old(config).default
                &&& final(config).last_set_env == old(config).last_set_env
                &&& final(config).runtime_injection == old(config).runtime_injection
            } else {
                &&& r matches ConnectionsOutcome::Failed(m) && m@ == no_such_connection_message(
                    name@,
                )
                &&& *final(config) == *old(config)
            },
        },
{
    match sub {
        ConnectionsSub::List => {
            let mut lines: Vec<String> = Vec::new();
            if config.connections.len() == 0 {
                lines.push(owned("No saved connections."));
                assert(config.connection_list().len() == 0);
                assert(string_views(lines@) =~= listing_lines(*config));
                return ConnectionsOutcome::Print(lines);
            }
            lines.push(owned("Saved connections:"));
            let ghost list = config.connection_list();
            let ghost f = |e: (Seq<char>, Connection)| connection_line(*config, e.0, e.1);
            let mut i: usize = 0;
            while i < config.connections.len()
                invariant
                    i <= config.connections@.len(),
                    list == config.connection_list(),
                    f == (|e: (Seq<char>, Connection)| connection_line(*config, e.0, e.1)),
                    string_views(lines@) =~= seq!["Saved connections:"@].add(
                        list.take(i as int).map_values(f),
                    ),
                decreases config.connections@.len() - i,
            {
                let line = connection_text(config, i);
                let ghost before = lines@;
                lines.push(line);
                proof {
                    assert(string_views(lines@) =~= string_views(before).push(line@));
                    assert(list.take(i + 1).map_values(f) =~= list.take(i as int).map_values(
                        f,
                    ).push(line@));
                }
                i = i + 1;
            }
            assert(list.take(i as int) =~= list);
            ConnectionsOutcome::Print(lines)
        },
        ConnectionsSub::Show => {
            let line = match &config.default {
                None => owned("No default connection set."),
                Some(d) => {
                    proof {
                        lemma_assoc_dom(config.connection_list(), d@);
                    }
                    match find_key(&config.connections, d.as_str()) {
                        Some(i) => {
                            proof {
                                assert(config.connection_list()[i as int].0 == d@);
                                lemma_assoc_index(config.connection_list(), i as int);
                            }
                            let mut m = concat3("Current connection (", d.as_str(), "): ");
                            m.append(config.connections[i].1.host.as_str());
                            m.append(":");
                            let port = decimal(config.connections[i].1.port);
                            m.append(port.as_str());
                            m
                        },
                        None => {
                            assert(!has_key(config.connection_list(), d@));
                            concat3("Default connection '", d.as_str(), "' not found.")
                        },
                    }
                },
            };
            let mut lines: Vec<String> = Vec::new();
            lines.push(line);
            assert(string_views(lines@) =~= seq![show_line(*config)]);
            ConnectionsOutcome::Print(lines)
        },
        ConnectionsSub::Use { name } => {
            if use_connection(config, name.as_str()) {
                ConnectionsOutcome::Saved(concat3("Default connection set to '", name.as_str(), "'"))
            } else {
                ConnectionsOutcome::Failed(concat3("No such connection: '", name.as_str(), "'"))
            }
        },
        ConnectionsSub::Remove { name } => {
            if remove_connection(config, name.as_str()) {
                ConnectionsOutcome::Saved(concat3("Connection '", name.as_str(), "' removed."))
            } else {
                ConnectionsOutcome::Failed(concat3("No such connection: '", name.as_str(), "'"))
            }
        },
    }
}

} // verus!
