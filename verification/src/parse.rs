//! A verified decoder for the JSON response bodies the daemon sends.
//!
//! The grammar below is the library's reading of those bodies: JSON values
//! with the usual string escapes, `\u` limited to non-surrogate code points,
//! and numbers read as maximal runs of number characters — as much as the
//! daemon ever needs. Members the library does not use are skipped whatever
//! their shape; the members it extracts must have the stated shape. In an
//! object read for a field, the first member with the looked-up key wins.
//!
//! Every executable function returns exactly what the corresponding spec
//! function states.

use vstd::prelude::*;

use crate::json::push_char;
use crate::types::{ContainerDescriptor, ContainerView, Network, NetworkSettings};

verus! {

/// Relies on `char::from_u32`: a non-surrogate code point below `0x110000`
/// converts to the character with that scalar value.
#[verifier::external_body]
fn char_from_u32(n: u32) -> (c: char)
    requires
        n < 0xD800 || (0xE000 <= n && n < 0x110000),
    ensures
        c as u32 == n,
{
    char::from_u32(n).unwrap()
}

/// JSON whitespace.
pub open spec fn is_ws(c: char) -> bool {
    c == ' ' || c == '\t' || c == '\n' || c == '\r'
}

/// The first position at or after `i` holding no whitespace.
pub open spec fn ws(s: Seq<char>, i: int) -> int
    decreases s.len() - i,
{
    if 0 <= i && i < s.len() && is_ws(s[i]) {
        ws(s, i + 1)
    } else {
        i
    }
}

/// The value of a hex digit, or a negative number if `c` is none.
pub open spec fn hex_val(c: char) -> int {
    if 48 <= c as u32 && c as u32 <= 57 {
        c as u32 - 48
    } else if 65 <= c as u32 && c as u32 <= 70 {
        c as u32 - 55
    } else if 97 <= c as u32 && c as u32 <= 102 {
        c as u32 - 87
    } else {
        -1
    }
}

/// The value of four hex digits starting at `i`, or a negative number if
/// they are not there.
pub open spec fn hex4(s: Seq<char>, i: int) -> int {
    if 0 <= i && i + 4 <= s.len() && hex_val(s[i]) >= 0 && hex_val(s[i + 1]) >= 0 && hex_val(
        s[i + 2],
    ) >= 0 && hex_val(s[i + 3]) >= 0 {
        4096 * hex_val(s[i]) + 256 * hex_val(s[i + 1]) + 16 * hex_val(s[i + 2]) + hex_val(s[i + 3])
    } else {
        -1
    }
}

/// A `\u` escape read from its first hex digit: the decoded character and
/// the position after the digits. Surrogate code points are refused.
pub open spec fn unicode_escape(s: Seq<char>, i: int) -> Option<(char, int)> {
    let n = hex4(s, i);
    if n < 0 || (0xD800 <= n && n <= 0xDFFF) {
        Option::None
    } else {
        Option::Some(((n as u32) as char, i + 4))
    }
}

/// An escape sequence read from the character after the backslash: the
/// character it stands for and the position after the sequence.
pub open spec fn escape(s: Seq<char>, i: int) -> Option<(char, int)> {
    if 0 <= i && i < s.len() {
        let c = s[i];
        if c == '"' {
            Option::Some(('"', i + 1))
        } else if c == '\\' {
            Option::Some(('\\', i + 1))
        } else if c == '/' {
            Option::Some(('/', i + 1))
        } else if c == 'b' {
            Option::Some(('\u{8}', i + 1))
        } else if c == 'f' {
            Option::Some(('\u{c}', i + 1))
        } else if c == 'n' {
            Option::Some(('\n', i + 1))
        } else if c == 'r' {
            Option::Some(('\r', i + 1))
        } else if c == 't' {
            Option::Some(('\t', i + 1))
        } else if c == 'u' {
            unicode_escape(s, i + 1)
        } else {
            Option::None
        }
    } else {
        Option::None
    }
}

/// The content of a string literal read from just after its opening quote:
/// the unescaped characters and the position after the closing quote.
/// Unescaped control characters are refused.
pub open spec fn string_body(s: Seq<char>, i: int) -> Option<(Seq<char>, int)>
    decreases s.len() - i,
{
    if 0 <= i && i < s.len() {
        let c = s[i];
        if c == '"' {
            Option::Some((Seq::empty(), i + 1))
        } else if c == '\\' {
            match escape(s, i + 1) {
                Option::None => Option::None,
                Option::Some((e, j)) => if i < j {
                    match string_body(s, j) {
                        Option::None => Option::None,
                        Option::Some((rest, k)) => Option::Some((seq![e] + rest, k)),
                    }
                } else {
                    Option::None
                },
            }
        } else if (c as u32) < 0x20 {
            Option::None
        } else {
            match string_body(s, i + 1) {
                Option::None => Option::None,
                Option::Some((rest, k)) => Option::Some((seq![c] + rest, k)),
            }
        }
    } else {
        Option::None
    }
}

/// A decimal digit.
pub open spec fn is_digit(c: char) -> bool {
    48 <= c as u32 && c as u32 <= 57
}

/// The characters a JSON number is made of. A number is read as a maximal
/// run of them that opens with a digit or a minus sign.
pub open spec fn is_num_char(c: char) -> bool {
    is_digit(c) || c == '-' || c == '+' || c == '.' || c == 'e' || c == 'E'
}

/// The first position at or after `i` holding no number character.
pub open spec fn num_end(s: Seq<char>, i: int) -> int
    decreases s.len() - i,
{
    if 0 <= i && i < s.len() && is_num_char(s[i]) {
        num_end(s, i + 1)
    } else {
        i
    }
}

/// The position after the JSON value starting at `i`, whatever its shape.
pub open spec fn skip_value(s: Seq<char>, i: int) -> Option<int>
    decreases s.len() - i, 0int,
{
    if 0 <= i && i < s.len() {
        let c = s[i];
        if c == '"' {
            match string_body(s, i + 1) {
                Option::None => Option::None,
                Option::Some((_, j)) => Option::Some(j),
            }
        } else if c == '{' {
            skip_object_rest(s, i + 1)
        } else if c == '[' {
            skip_array_rest(s, i + 1)
        } else if c == 't' {
            if i + 4 <= s.len() && s[i + 1] == 'r' && s[i + 2] == 'u' && s[i + 3] == 'e' {
                Option::Some(i + 4)
            } else {
                Option::None
            }
        } else if c == 'f' {
            if i + 5 <= s.len() && s[i + 1] == 'a' && s[i + 2] == 'l' && s[i + 3] == 's' && s[i + 4]
                == 'e' {
                Option::Some(i + 5)
            } else {
                Option::None
            }
        } else if c == 'n' {
            if i + 4 <= s.len() && s[i + 1] == 'u' && s[i + 2] == 'l' && s[i + 3] == 'l' {
                Option::Some(i + 4)
            } else {
                Option::None
            }
        } else if c == '-' || is_digit(c) {
            Option::Some(num_end(s, i + 1))
        } else {
            Option::None
        }
    } else {
        Option::None
    }
}

/// The position after an object whose `{` stood at `i - 1`.
pub open spec fn skip_object_rest(s: Seq<char>, i: int) -> Option<int>
    decreases s.len() - i, 2int,
{
    let k = ws(s, i);
    if i <= k && k < s.len() {
        if s[k] == '}' {
            Option::Some(k + 1)
        } else {
            skip_members(s, k)
        }
    } else {
        Option::None
    }
}

/// The position after the members and closing brace of a non-empty object,
/// read from before the first key of the remaining members.
pub open spec fn skip_members(s: Seq<char>, i: int) -> Option<int>
    decreases s.len() - i, 1int,
{
    let k = ws(s, i);
    if i <= k && k < s.len() && s[k] == '"' {
        match string_body(s, k + 1) {
            Option::None => Option::None,
            Option::Some((_, j)) => if k < j {
                let m = ws(s, j);
                if j <= m && m < s.len() && s[m] == ':' {
                    let v = ws(s, m + 1);
                    if m < v && v <= s.len() {
                        match skip_value(s, v) {
                            Option::None => Option::None,
                            Option::Some(e0) => if v < e0 {
                                let e = ws(s, e0);
                                if e0 <= e && e < s.len() {
                                    if s[e] == ',' {
                                        skip_members(s, e + 1)
                                    } else if s[e] == '}' {
                                        Option::Some(e + 1)
                                    } else {
                                        Option::None
                                    }
                                } else {
                                    Option::None
                                }
                            } else {
                                Option::None
                            },
                        }
                    } else {
                        Option::None
                    }
                } else {
                    Option::None
                }
            } else {
                Option::None
            },
        }
    } else {
        Option::None
    }
}

/// The position after an array whose `[` stood at `i - 1`.
pub open spec fn skip_array_rest(s: Seq<char>, i: int) -> Option<int>
    decreases s.len() - i, 2int,
{
    let k = ws(s, i);
    if i <= k && k < s.len() {
        if s[k] == ']' {
            Option::Some(k + 1)
        } else {
            skip_elems(s, k)
        }
    } else {
        Option::None
    }
}

/// The position after the elements and closing bracket of a non-empty array,
/// read from before the next element.
pub open spec fn skip_elems(s: Seq<char>, i: int) -> Option<int>
    decreases s.len() - i, 1int,
{
    let k = ws(s, i);
    if i <= k && k <= s.len() {
        match skip_value(s, k) {
            Option::None => Option::None,
            Option::Some(j) => if k < j {
                let e = ws(s, j);
                if j <= e && e < s.len() {
                    if s[e] == ',' {
                        skip_elems(s, e + 1)
                    } else if s[e] == ']' {
                        Option::Some(e + 1)
                    } else {
                        Option::None
                    }
                } else {
                    Option::None
                }
            } else {
                Option::None
            },
        }
    } else {
        Option::None
    }
}

/// Spec-level content of an optional captured string.
pub open spec fn opt_view(o: Option<String>) -> Option<Seq<char>> {
    match o {
        Option::None => Option::None,
        Option::Some(s) => Option::Some(s@),
    }
}

/// The members of an object read for its `Id`: the first `Id` member must
/// hold a string, every other member is skipped. Read from before the next
/// key; `found` is the id captured so far; ends with the id (if any) and the
/// position after the closing brace.
pub open spec fn id_members(s: Seq<char>, i: int, found: Option<Seq<char>>) -> Option<
    (Option<Seq<char>>, int),
>
    decreases s.len() - i,
{
    let k = ws(s, i);
    if i <= k && k < s.len() && s[k] == '"' {
        match string_body(s, k + 1) {
            Option::None => Option::None,
            Option::Some((key, j)) => if k < j {
                let m = ws(s, j);
                if j <= m && m < s.len() && s[m] == ':' {
                    let v = ws(s, m + 1);
                    if m < v && v <= s.len() {
                        let after: Option<(Option<Seq<char>>, int)> = if key == "Id"@ && found
                            is None {
                            if v < s.len() && s[v] == '"' {
                                match string_body(s, v + 1) {
                                    Option::None => Option::None,
                                    Option::Some((idv, e0)) => Option::Some(
                                        (Option::Some(idv), e0),
                                    ),
                                }
                            } else {
                                Option::None
                            }
                        } else {
                            match skip_value(s, v) {
                                Option::None => Option::None,
                                Option::Some(e0) => Option::Some((found, e0)),
                            }
                        };
                        match after {
                            Option::None => Option::None,
                            Option::Some((found2, e0)) => if v < e0 {
                                let e = ws(s, e0);
                                if e0 <= e && e < s.len() {
                                    if s[e] == ',' {
                                        id_members(s, e + 1, found2)
                                    } else if s[e] == '}' {
                                        Option::Some((found2, e + 1))
                                    } else {
                                        Option::None
                                    }
                                } else {
                                    Option::None
                                }
                            } else {
                                Option::None
                            },
                        }
                    } else {
                        Option::None
                    }
                } else {
                    Option::None
                }
            } else {
                Option::None
            },
        }
    } else {
        Option::None
    }
}

/// An object holding an `Id` string, read from its opening brace: the id and
/// the position after the closing brace.
pub open spec fn parse_id_object(s: Seq<char>, i: int) -> Option<(Seq<char>, int)> {
    if 0 <= i && i < s.len() && s[i] == '{' {
        match id_members(s, i + 1, Option::None) {
            Option::None => Option::None,
            Option::Some((found, j)) => match found {
                Option::None => Option::None,
                Option::Some(id) => Option::Some((id, j)),
            },
        }
    } else {
        Option::None
    }
}

/// The elements of a non-empty array of id objects, read from before the
/// next element; `acc` holds the ids already read.
pub open spec fn image_elems(s: Seq<char>, i: int, acc: Seq<Seq<char>>) -> Option<
    (Seq<Seq<char>>, int),
>
    decreases s.len() - i,
{
    let k = ws(s, i);
    if i <= k && k <= s.len() {
        match parse_id_object(s, k) {
            Option::None => Option::None,
            Option::Some((id, j)) => if k < j {
                let e = ws(s, j);
                if j <= e && e < s.len() {
                    if s[e] == ',' {
                        image_elems(s, e + 1, acc.push(id))
                    } else if s[e] == ']' {
                        Option::Some((acc.push(id), e + 1))
                    } else {
                        Option::None
                    }
                } else {
                    Option::None
                }
            } else {
                Option::None
            },
        }
    } else {
        Option::None
    }
}

/// A whole image listing body: a JSON array of objects, the `Id` of each.
pub open spec fn parse_image_list(s: Seq<char>) -> Option<Seq<Seq<char>>> {
    let k = ws(s, 0);
    if 0 <= k && k < s.len() && s[k] == '[' {
        let k2 = ws(s, k + 1);
        if k + 1 <= k2 && k2 < s.len() && s[k2] == ']' {
            if ws(s, k2 + 1) == s.len() {
                Option::Some(Seq::empty())
            } else {
                Option::None
            }
        } else {
            match image_elems(s, k + 1, Seq::empty()) {
                Option::None => Option::None,
                Option::Some((ids, j)) => if ws(s, j) == s.len() {
                    Option::Some(ids)
                } else {
                    Option::None
                },
            }
        }
    } else {
        Option::None
    }
}

/// A whole container creation answer: one object, its `Id`.
pub open spec fn parse_create_result(s: Seq<char>) -> Option<Seq<char>> {
    let k = ws(s, 0);
    match parse_id_object(s, k) {
        Option::None => Option::None,
        Option::Some((id, j)) => if ws(s, j) == s.len() {
            Option::Some(id)
        } else {
            Option::None
        },
    }
}

/// The members of a network object read for its `IPAddress`: the first such
/// member must hold a string, every other member is skipped.
pub open spec fn net_members(s: Seq<char>, i: int, found: Option<Seq<char>>) -> Option<
    (Option<Seq<char>>, int),
>
    decreases s.len() - i,
{
    let k = ws(s, i);
    if i <= k && k < s.len() && s[k] == '"' {
        match string_body(s, k + 1) {
            Option::None => Option::None,
            Option::Some((key, j)) => if k < j {
                let m = ws(s, j);
                if j <= m && m < s.len() && s[m] == ':' {
                    let v = ws(s, m + 1);
                    if m < v && v <= s.len() {
                        let after: Option<(Option<Seq<char>>, int)> = if key == "IPAddress"@
                            && found is None {
                            if v < s.len() && s[v] == '"' {
                                match string_body(s, v + 1) {
                                    Option::None => Option::None,
                                    Option::Some((ip, e0)) => Option::Some((Option::Some(ip), e0)),
                                }
                            } else {
                                Option::None
                            }
                        } else {
                            match skip_value(s, v) {
                                Option::None => Option::None,
                                Option::Some(e0) => Option::Some((found, e0)),
                            }
                        };
                        match after {
                            Option::None => Option::None,
                            Option::Some((found2, e0)) => if v < e0 {
                                let e = ws(s, e0);
                                if e0 <= e && e < s.len() {
                                    if s[e] == ',' {
                                        net_members(s, e + 1, found2)
                                    } else if s[e] == '}' {
                                        Option::Some((found2, e + 1))
                                    } else {
                                        Option::None
                                    }
                                } else {
                                    Option::None
                                }
                            } else {
                                Option::None
                            },
                        }
                    } else {
                        Option::None
                    }
                } else {
                    Option::None
                }
            } else {
                Option::None
            },
        }
    } else {
        Option::None
    }
}

/// A network object read from its opening brace: the address it holds and
/// the position after the closing brace.
pub open spec fn parse_network(s: Seq<char>, i: int) -> Option<(Seq<char>, int)> {
    if 0 <= i && i < s.len() && s[i] == '{' {
        match net_members(s, i + 1, Option::None) {
            Option::None => Option::None,
            Option::Some((found, j)) => match found {
                Option::None => Option::None,
                Option::Some(ip) => Option::Some((ip, j)),
            },
        }
    } else {
        Option::None
    }
}

/// The members of the `Networks` object, read from before the next key: each
/// member is a network name and a network object; `acc` holds the
/// `(name, address)` pairs already read, in wire order.
pub open spec fn networks_members(s: Seq<char>, i: int, acc: Seq<(Seq<char>, Seq<char>)>) -> Option<
    (Seq<(Seq<char>, Seq<char>)>, int),
>
    decreases s.len() - i,
{
    let k = ws(s, i);
    if i <= k && k < s.len() && s[k] == '"' {
        match string_body(s, k + 1) {
            Option::None => Option::None,
            Option::Some((name, j)) => if k < j {
                let m = ws(s, j);
                if j <= m && m < s.len() && s[m] == ':' {
                    let v = ws(s, m + 1);
                    if m < v && v <= s.len() {
                        match parse_network(s, v) {
                            Option::None => Option::None,
                            Option::Some((ip, e0)) => if v < e0 {
                                let e = ws(s, e0);
                                if e0 <= e && e < s.len() {
                                    if s[e] == ',' {
                                        networks_members(s, e + 1, acc.push((name, ip)))
                                    } else if s[e] == '}' {
                                        Option::Some((acc.push((name, ip)), e + 1))
                                    } else {
                                        Option::None
                                    }
                                } else {
                                    Option::None
                                }
                            } else {
                                Option::None
                            },
                        }
                    } else {
                        Option::None
                    }
                } else {
                    Option::None
                }
            } else {
                Option::None
            },
        }
    } else {
        Option::None
    }
}

/// The `Networks` object read from its opening brace: the `(name, address)`
/// pairs in wire order and the position after the closing brace. The object
/// may be empty.
pub open spec fn parse_networks(s: Seq<char>, i: int) -> Option<(Seq<(Seq<char>, Seq<char>)>, int)> {
    if 0 <= i && i < s.len() && s[i] == '{' {
        let k = ws(s, i + 1);
        if i < k && k < s.len() && s[k] == '}' {
            Option::Some((Seq::empty(), k + 1))
        } else {
            networks_members(s, i + 1, Seq::empty())
        }
    } else {
        Option::None
    }
}

/// The members of a `NetworkSettings` object read for its `Networks`: the
/// first such member must hold the networks object, every other member is
/// skipped.
pub open spec fn ns_members(
    s: Seq<char>,
    i: int,
    found: Option<Seq<(Seq<char>, Seq<char>)>>,
) -> Option<(Option<Seq<(Seq<char>, Seq<char>)>>, int)>
    decreases s.len() - i,
{
    let k = ws(s, i);
    if i <= k && k < s.len() && s[k] == '"' {
        match string_body(s, k + 1) {
            Option::None => Option::None,
            Option::Some((key, j)) => if k < j {
                let m = ws(s, j);
                if j <= m && m < s.len() && s[m] == ':' {
                    let v = ws(s, m + 1);
                    if m < v && v <= s.len() {
                        let after: Option<(Option<Seq<(Seq<char>, Seq<char>)>>, int)> = if key
                            == "Networks"@ && found is None {
                            match parse_networks(s, v) {
                                Option::None => Option::None,
                                Option::Some((nets, e0)) => Option::Some(
                                    (Option::Some(nets), e0),
                                ),
                            }
                        } else {
                            match skip_value(s, v) {
                                Option::None => Option::None,
                                Option::Some(e0) => Option::Some((found, e0)),
                            }
                        };
                        match after {
                            Option::None => Option::None,
                            Option::Some((found2, e0)) => if v < e0 {
                                let e = ws(s, e0);
                                if e0 <= e && e < s.len() {
                                    if s[e] == ',' {
                                        ns_members(s, e + 1, found2)
                                    } else if s[e] == '}' {
                                        Option::Some((found2, e + 1))
                                    } else {
                                        Option::None
                                    }
                                } else {
                                    Option::None
                                }
                            } else {
                                Option::None
                            },
                        }
                    } else {
                        Option::None
                    }
                } else {
                    Option::None
                }
            } else {
                Option::None
            },
        }
    } else {
        Option::None
    }
}

/// A `NetworkSettings` object read from its opening brace: the networks it
/// holds and the position after the closing brace.
pub open spec fn parse_network_settings(s: Seq<char>, i: int) -> Option<
    (Seq<(Seq<char>, Seq<char>)>, int),
> {
    if 0 <= i && i < s.len() && s[i] == '{' {
        match ns_members(s, i + 1, Option::None) {
            Option::None => Option::None,
            Option::Some((found, j)) => match found {
                Option::None => Option::None,
                Option::Some(nets) => Option::Some((nets, j)),
            },
        }
    } else {
        Option::None
    }
}

/// The members of a container object read for its `Id` and its
/// `NetworkSettings`; every other member is skipped. Both must be present.
pub open spec fn container_members(
    s: Seq<char>,
    i: int,
    id: Option<Seq<char>>,
    nets: Option<Seq<(Seq<char>, Seq<char>)>>,
) -> Option<((Option<Seq<char>>, Option<Seq<(Seq<char>, Seq<char>)>>), int)>
    decreases s.len() - i,
{
    let k = ws(s, i);
    if i <= k && k < s.len() && s[k] == '"' {
        match string_body(s, k + 1) {
            Option::None => Option::None,
            Option::Some((key, j)) => if k < j {
                let m = ws(s, j);
                if j <= m && m < s.len() && s[m] == ':' {
                    let v = ws(s, m + 1);
                    if m < v && v <= s.len() {
                        let after: Option<
                            ((Option<Seq<char>>, Option<Seq<(Seq<char>, Seq<char>)>>), int),
                        > = if key == "Id"@ && id is None {
                            if v < s.len() && s[v] == '"' {
                                match string_body(s, v + 1) {
                                    Option::None => Option::None,
                                    Option::Some((idv, e0)) => Option::Some(
                                        ((Option::Some(idv), nets), e0),
                                    ),
                                }
                            } else {
                                Option::None
                            }
                        } else if key == "NetworkSettings"@ && nets is None {
                            match parse_network_settings(s, v) {
                                Option::None => Option::None,
                                Option::Some((ns, e0)) => Option::Some(
                                    ((id, Option::Some(ns)), e0),
                                ),
                            }
                        } else {
                            match skip_value(s, v) {
                                Option::None => Option::None,
                                Option::Some(e0) => Option::Some(((id, nets), e0)),
                            }
                        };
                        match after {
                            Option::None => Option::None,
                            Option::Some(((id2, nets2), e0)) => if v < e0 {
                                let e = ws(s, e0);
                                if e0 <= e && e < s.len() {
                                    if s[e] == ',' {
                                        container_members(s, e + 1, id2, nets2)
                                    } else if s[e] == '}' {
                                        Option::Some(((id2, nets2), e + 1))
                                    } else {
                                        Option::None
                                    }
                                } else {
                                    Option::None
                                }
                            } else {
                                Option::None
                            },
                        }
                    } else {
                        Option::None
                    }
                } else {
                    Option::None
                }
            } else {
                Option::None
            },
        }
    } else {
        Option::None
    }
}

/// A container object read from its opening brace: its content and the
/// position after the closing brace.
pub open spec fn parse_container(s: Seq<char>, i: int) -> Option<(ContainerView, int)> {
    if 0 <= i && i < s.len() && s[i] == '{' {
        match container_members(s, i + 1, Option::None, Option::None) {
            Option::None => Option::None,
            Option::Some(((id, nets), j)) => match (id, nets) {
                (Option::Some(id), Option::Some(nets)) => Option::Some(
                    (ContainerView { id, networks: nets }, j),
                ),
                _ => Option::None,
            },
        }
    } else {
        Option::None
    }
}

/// The elements of a non-empty array of container objects, read from before
/// the next element; `acc` holds the containers already read.
pub open spec fn container_elems(s: Seq<char>, i: int, acc: Seq<ContainerView>) -> Option<
    (Seq<ContainerView>, int),
>
    decreases s.len() - i,
{
    let k = ws(s, i);
    if i <= k && k <= s.len() {
        match parse_container(s, k) {
            Option::None => Option::None,
            Option::Some((c, j)) => if k < j {
                let e = ws(s, j);
                if j <= e && e < s.len() {
                    if s[e] == ',' {
                        container_elems(s, e + 1, acc.push(c))
                    } else if s[e] == ']' {
                        Option::Some((acc.push(c), e + 1))
                    } else {
                        Option::None
                    }
                } else {
                    Option::None
                }
            } else {
                Option::None
            },
        }
    } else {
        Option::None
    }
}

/// A whole container listing body: a JSON array of container objects.
pub open spec fn parse_container_list(s: Seq<char>) -> Option<Seq<ContainerView>> {
    let k = ws(s, 0);
    if 0 <= k && k < s.len() && s[k] == '[' {
        let k2 = ws(s, k + 1);
        if k + 1 <= k2 && k2 < s.len() && s[k2] == ']' {
            if ws(s, k2 + 1) == s.len() {
                Option::Some(Seq::empty())
            } else {
                Option::None
            }
        } else {
            match container_elems(s, k + 1, Seq::empty()) {
                Option::None => Option::None,
                Option::Some((cs, j)) => if ws(s, j) == s.len() {
                    Option::Some(cs)
                } else {
                    Option::None
                },
            }
        }
    } else {
        Option::None
    }
}

/// Spec-level content of optionally captured networks.
pub open spec fn nets_view(v: Seq<(String, Network)>) -> Seq<(Seq<char>, Seq<char>)> {
    v.map_values(|e: (String, Network)| (e.0@, e.1.ip_address@))
}

/// Spec-level content of an optionally captured networks vector.
pub open spec fn opt_nets(o: Option<Vec<(String, Network)>>) -> Option<Seq<(Seq<char>, Seq<char>)>> {
    match o {
        Option::None => Option::None,
        Option::Some(v) => Option::Some(nets_view(v@)),
    }
}

/// Spec-level content of a vector of container descriptors.
pub open spec fn containers_view(v: Seq<ContainerDescriptor>) -> Seq<ContainerView> {
    v.map_values(|d: ContainerDescriptor| d@)
}

/// Finds the end of the whitespace run at `i`, exactly as [`ws`] states it.
fn ws_exec(s: &str, n: usize, i: usize) -> (k: usize)
    requires
        n == s@.len(),
        i <= n,
    ensures
        i <= k <= n,
        k as int == ws(s@, i as int),
    decreases n - i,
{
    if i < n {
        let c = s.get_char(i);
        if c == ' ' || c == '\t' || c == '\n' || c == '\r' {
            return ws_exec(s, n, i + 1);
        }
    }
    i
}

/// Finds the end of the number-character run at `i`, exactly as [`num_end`]
/// states it.
fn num_end_exec(s: &str, n: usize, i: usize) -> (k: usize)
    requires
        n == s@.len(),
        i <= n,
    ensures
        i <= k <= n,
        k as int == num_end(s@, i as int),
    decreases n - i,
{
    if i < n {
        let c = s.get_char(i);
        let u = c as u32;
        if (48 <= u && u <= 57) || c == '-' || c == '+' || c == '.' || c == 'e' || c == 'E' {
            return num_end_exec(s, n, i + 1);
        }
    }
    i
}

/// Reads one hex digit, exactly as [`hex_val`] states it.
fn hex_val_exec(c: char) -> (r: Option<u8>)
    ensures
        r matches Some(v) ==> v < 16 && hex_val(c) == v as int,
        r is None ==> hex_val(c) < 0,
{
    let u = c as u32;
    if 48 <= u && u <= 57 {
        Option::Some((u - 48) as u8)
    } else if 65 <= u && u <= 70 {
        Option::Some((u - 55) as u8)
    } else if 97 <= u && u <= 102 {
        Option::Some((u - 87) as u8)
    } else {
        Option::None
    }
}

/// Reads one escape sequence, exactly as [`escape`] states it.
fn escape_exec(s: &str, n: usize, i: usize) -> (r: Option<(char, usize)>)
    requires
        n == s@.len(),
        i <= n,
    ensures
        r is Some <==> escape(s@, i as int) is Some,
        r matches Some((c, j)) ==> escape(s@, i as int) == Option::Some((c, j as int)) && i < j
            <= n,
{
    if i >= n {
        return Option::None;
    }
    let c = s.get_char(i);
    if c == '"' {
        Option::Some(('"', i + 1))
    } else if c == '\\' {
        Option::Some(('\\', i + 1))
    } else if c == '/' {
        Option::Some(('/', i + 1))
    } else if c == 'b' {
        Option::Some(('\u{8}', i + 1))
    } else if c == 'f' {
        Option::Some(('\u{c}', i + 1))
    } else if c == 'n' {
        Option::Some(('\n', i + 1))
    } else if c == 'r' {
        Option::Some(('\r', i + 1))
    } else if c == 't' {
        Option::Some(('\t', i + 1))
    } else if c == 'u' {
        if n - i < 5 {
            return Option::None;
        }
        let h0 = hex_val_exec(s.get_char(i + 1));
        let h1 = hex_val_exec(s.get_char(i + 2));
        let h2 = hex_val_exec(s.get_char(i + 3));
        let h3 = hex_val_exec(s.get_char(i + 4));
        match (h0, h1, h2, h3) {
            (Option::Some(a), Option::Some(b), Option::Some(cc), Option::Some(d)) => {
                let val: u32 = 4096 * (a as u32) + 256 * (b as u32) + 16 * (cc as u32) + (d as u32);
                proof {
                    assert(hex4(s@, i + 1 as int) == val as int);
                }
                if 0xD800 <= val && val <= 0xDFFF {
                    Option::None
                } else {
                    let ch = char_from_u32(val);
                    proof {
                        vstd::utf8::char_u32_cast(ch, val);
                    }
                    Option::Some((ch, i + 5))
                }
            },
            _ => Option::None,
        }
    } else {
        Option::None
    }
}

/// Reads a string literal's content, exactly as [`string_body`] states it.
fn string_body_exec(s: &str, n: usize, i: usize) -> (r: Option<(String, usize)>)
    requires
        n == s@.len(),
        i <= n,
    ensures
        r is Some <==> string_body(s@, i as int) is Some,
        r matches Some((v, j)) ==> string_body(s@, i as int) == Option::Some((v@, j as int)) && i
            < j <= n,
    decreases n - i,
{
    if i >= n {
        return Option::None;
    }
    let c = s.get_char(i);
    if c == '"' {
        Option::Some((String::new(), i + 1))
    } else if c == '\\' {
        match escape_exec(s, n, i + 1) {
            Option::None => Option::None,
            Option::Some((e, j)) => {
                match string_body_exec(s, n, j) {
                    Option::None => Option::None,
                    Option::Some((rest, k)) => {
                        let mut out = String::new();
                        push_char(&mut out, e);
                        out.append(rest.as_str());
                        proof {
                            assert(out@ =~= seq![e] + rest@);
                        }
                        Option::Some((out, k))
                    },
                }
            },
        }
    } else if (c as u32) < 0x20 {
        Option::None
    } else {
        match string_body_exec(s, n, i + 1) {
            Option::None => Option::None,
            Option::Some((rest, k)) => {
                let mut out = String::new();
                push_char(&mut out, c);
                out.append(rest.as_str());
                proof {
                    assert(out@ =~= seq![c] + rest@);
                }
                Option::Some((out, k))
            },
        }
    }
}

/// Skips one JSON value, exactly as [`skip_value`] states it.
fn skip_value_exec(s: &str, n: usize, i: usize) -> (r: Option<usize>)
    requires
        n == s@.len(),
        i <= n,
    ensures
        r is Some <==> skip_value(s@, i as int) is Some,
        r matches Some(j) ==> skip_value(s@, i as int) == Option::Some(j as int) && i < j <= n,
    decreases n - i, 0int,
{
    if i >= n {
        return Option::None;
    }
    let c = s.get_char(i);
    if c == '"' {
        match string_body_exec(s, n, i + 1) {
            Option::None => Option::None,
            Option::Some((_, j)) => Option::Some(j),
        }
    } else if c == '{' {
        skip_object_rest_exec(s, n, i + 1)
    } else if c == '[' {
        skip_array_rest_exec(s, n, i + 1)
    } else if c == 't' {
        if n - i >= 4 && s.get_char(i + 1) == 'r' && s.get_char(i + 2) == 'u' && s.get_char(i + 3)
            == 'e' {
            Option::Some(i + 4)
        } else {
            Option::None
        }
    } else if c == 'f' {
        if n - i >= 5 && s.get_char(i + 1) == 'a' && s.get_char(i + 2) == 'l' && s.get_char(i + 3)
            == 's' && s.get_char(i + 4) == 'e' {
            Option::Some(i + 5)
        } else {
            Option::None
        }
    } else if c == 'n' {
        if n - i >= 4 && s.get_char(i + 1) == 'u' && s.get_char(i + 2) == 'l' && s.get_char(i + 3)
            == 'l' {
            Option::Some(i + 4)
        } else {
            Option::None
        }
    } else {
        let u = c as u32;
        if c == '-' || (48 <= u && u <= 57) {
            Option::Some(num_end_exec(s, n, i + 1))
        } else {
            Option::None
        }
    }
}

/// Skips the rest of an object, exactly as [`skip_object_rest`] states it.
fn skip_object_rest_exec(s: &str, n: usize, i: usize) -> (r: Option<usize>)
    requires
        n == s@.len(),
        i <= n,
    ensures
        r is Some <==> skip_object_rest(s@, i as int) is Some,
        r matches Some(j) ==> skip_object_rest(s@, i as int) == Option::Some(j as int) && i < j
            <= n,
    decreases n - i, 2int,
{
    let k = ws_exec(s, n, i);
    if k >= n {
        return Option::None;
    }
    if s.get_char(k) == '}' {
        Option::Some(k + 1)
    } else {
        skip_members_exec(s, n, k)
    }
}

/// Skips the members of a non-empty object, exactly as [`skip_members`]
/// states it.
fn skip_members_exec(s: &str, n: usize, i: usize) -> (r: Option<usize>)
    requires
        n == s@.len(),
        i <= n,
    ensures
        r is Some <==> skip_members(s@, i as int) is Some,
        r matches Some(j) ==> skip_members(s@, i as int) == Option::Some(j as int) && i < j <= n,
    decreases n - i, 1int,
{
    let k = ws_exec(s, n, i);
    if k >= n {
        return Option::None;
    }
    if s.get_char(k) != '"' {
        return Option::None;
    }
    match string_body_exec(s, n, k + 1) {
        Option::None => Option::None,
        Option::Some((_, j)) => {
            let m = ws_exec(s, n, j);
            if m >= n {
                return Option::None;
            }
            if s.get_char(m) != ':' {
                return Option::None;
            }
            let v = ws_exec(s, n, m + 1);
            match skip_value_exec(s, n, v) {
                Option::None => Option::None,
                Option::Some(e0) => {
                    let e = ws_exec(s, n, e0);
                    if e >= n {
                        return Option::None;
                    }
                    let ce = s.get_char(e);
                    if ce == ',' {
                        skip_members_exec(s, n, e + 1)
                    } else if ce == '}' {
                        Option::Some(e + 1)
                    } else {
                        Option::None
                    }
                },
            }
        },
    }
}

/// Skips the rest of an array, exactly as [`skip_array_rest`] states it.
fn skip_array_rest_exec(s: &str, n: usize, i: usize) -> (r: Option<usize>)
    requires
        n == s@.len(),
        i <= n,
    ensures
        r is Some <==> skip_array_rest(s@, i as int) is Some,
        r matches Some(j) ==> skip_array_rest(s@, i as int) == Option::Some(j as int) && i < j
            <= n,
    decreases n - i, 2int,
{
    let k = ws_exec(s, n, i);
    if k >= n {
        return Option::None;
    }
    if s.get_char(k) == ']' {
        Option::Some(k + 1)
    } else {
        skip_elems_exec(s, n, k)
    }
}

/// Skips the elements of a non-empty array, exactly as [`skip_elems`] states
/// it.
fn skip_elems_exec(s: &str, n: usize, i: usize) -> (r: Option<usize>)
    requires
        n == s@.len(),
        i <= n,
    ensures
        r is Some <==> skip_elems(s@, i as int) is Some,
        r matches Some(j) ==> skip_elems(s@, i as int) == Option::Some(j as int) && i < j <= n,
    decreases n - i, 1int,
{
    let k = ws_exec(s, n, i);
    match skip_value_exec(s, n, k) {
        Option::None => Option::None,
        Option::Some(j) => {
            let e = ws_exec(s, n, j);
            if e >= n {
                return Option::None;
            }
            let ce = s.get_char(e);
            if ce == ',' {
                skip_elems_exec(s, n, e + 1)
            } else if ce == ']' {
                Option::Some(e + 1)
            } else {
                Option::None
            }
        },
    }
}

/// Reads the members of an id object, exactly as [`id_members`] states it.
fn id_members_exec(s: &str, n: usize, i: usize, found: Option<String>) -> (r: Option<
    (Option<String>, usize),
>)
    requires
        n == s@.len(),
        i <= n,
    ensures
        r is Some <==> id_members(s@, i as int, opt_view(found)) is Some,
        r matches Some((f2, j)) ==> id_members(s@, i as int, opt_view(found)) == Option::Some(
            (opt_view(f2), j as int),
        ) && i < j <= n,
    decreases n - i,
{
    let k = ws_exec(s, n, i);
    if k >= n {
        return Option::None;
    }
    if s.get_char(k) != '"' {
        return Option::None;
    }
    match string_body_exec(s, n, k + 1) {
        Option::None => Option::None,
        Option::Some((key, j)) => {
            let m = ws_exec(s, n, j);
            if m >= n {
                return Option::None;
            }
            if s.get_char(m) != ':' {
                return Option::None;
            }
            let v = ws_exec(s, n, m + 1);
            let id_key = String::from_str("Id");
            if key == id_key && found.is_none() {
                if v >= n {
                    return Option::None;
                }
                if s.get_char(v) != '"' {
                    return Option::None;
                }
                match string_body_exec(s, n, v + 1) {
                    Option::None => Option::None,
                    Option::Some((idv, e0)) => {
                        let e = ws_exec(s, n, e0);
                        if e >= n {
                            return Option::None;
                        }
                        let ce = s.get_char(e);
                        if ce == ',' {
                            id_members_exec(s, n, e + 1, Option::Some(idv))
                        } else if ce == '}' {
                            Option::Some((Option::Some(idv), e + 1))
                        } else {
                            Option::None
                        }
                    },
                }
            } else {
                match skip_value_exec(s, n, v) {
                    Option::None => Option::None,
                    Option::Some(e0) => {
                        let e = ws_exec(s, n, e0);
                        if e >= n {
                            return Option::None;
                        }
                        let ce = s.get_char(e);
                        if ce == ',' {
                            id_members_exec(s, n, e + 1, found)
                        } else if ce == '}' {
                            Option::Some((found, e + 1))
                        } else {
                            Option::None
                        }
                    },
                }
            }
        },
    }
}

/// Reads an id object, exactly as [`parse_id_object`] states it.
fn parse_id_object_exec(s: &str, n: usize, i: usize) -> (r: Option<(String, usize)>)
    requires
        n == s@.len(),
        i <= n,
    ensures
        r is Some <==> parse_id_object(s@, i as int) is Some,
        r matches Some((id, j)) ==> parse_id_object(s@, i as int) == Option::Some(
            (id@, j as int),
        ) && i < j <= n,
{
    if i >= n {
        return Option::None;
    }
    if s.get_char(i) != '{' {
        return Option::None;
    }
    match id_members_exec(s, n, i + 1, Option::None) {
        Option::None => Option::None,
        Option::Some((found, j)) => match found {
            Option::None => Option::None,
            Option::Some(id) => Option::Some((id, j)),
        },
    }
}

/// Reads the elements of an array of id objects, exactly as [`image_elems`]
/// states it.
fn image_elems_exec(s: &str, n: usize, i: usize, acc: Vec<String>) -> (r: Option<
    (Vec<String>, usize),
>)
    requires
        n == s@.len(),
        i <= n,
    ensures
        r is Some <==> image_elems(s@, i as int, acc.deep_view()) is Some,
        r matches Some((ids, j)) ==> image_elems(s@, i as int, acc.deep_view()) == Option::Some(
            (ids.deep_view(), j as int),
        ) && i < j <= n,
    decreases n - i,
{
    let ghost acc0 = acc.deep_view();
    let k = ws_exec(s, n, i);
    match parse_id_object_exec(s, n, k) {
        Option::None => Option::None,
        Option::Some((id, j)) => {
            let e = ws_exec(s, n, j);
            if e >= n {
                return Option::None;
            }
            let ce = s.get_char(e);
            if ce == ',' || ce == ']' {
                let ghost idv = id@;
                let mut acc2 = acc;
                acc2.push(id);
                proof {
                    assert(acc2.deep_view() =~= acc0.push(idv));
                }
                if ce == ',' {
                    image_elems_exec(s, n, e + 1, acc2)
                } else {
                    Option::Some((acc2, e + 1))
                }
            } else {
                Option::None
            }
        },
    }
}

/// Reads a whole image listing body, exactly as [`parse_image_list`] states
/// it.
pub fn parse_image_list_exec(s: &str) -> (r: Option<Vec<String>>)
    ensures
        r is Some <==> parse_image_list(s@) is Some,
        r matches Some(ids) ==> parse_image_list(s@) == Option::Some(ids.deep_view()),
{
    let n = s.unicode_len();
    let k = ws_exec(s, n, 0);
    if k >= n {
        return Option::None;
    }
    if s.get_char(k) != '[' {
        return Option::None;
    }
    let k2 = ws_exec(s, n, k + 1);
    if k2 < n && s.get_char(k2) == ']' {
        let e = ws_exec(s, n, k2 + 1);
        if e == n {
            let empty: Vec<String> = Vec::new();
            proof {
                assert(empty.deep_view() =~= Seq::<Seq<char>>::empty());
            }
            Option::Some(empty)
        } else {
            Option::None
        }
    } else {
        let start: Vec<String> = Vec::new();
        proof {
            assert(start.deep_view() =~= Seq::<Seq<char>>::empty());
        }
        match image_elems_exec(s, n, k + 1, start) {
            Option::None => Option::None,
            Option::Some((ids, j)) => {
                let e = ws_exec(s, n, j);
                if e == n {
                    Option::Some(ids)
                } else {
                    Option::None
                }
            },
        }
    }
}

/// Reads a whole container creation answer, exactly as
/// [`parse_create_result`] states it.
pub fn parse_create_result_exec(s: &str) -> (r: Option<String>)
    ensures
        r is Some <==> parse_create_result(s@) is Some,
        r matches Some(id) ==> parse_create_result(s@) == Option::Some(id@),
{
    let n = s.unicode_len();
    let k = ws_exec(s, n, 0);
    match parse_id_object_exec(s, n, k) {
        Option::None => Option::None,
        Option::Some((id, j)) => {
            let e = ws_exec(s, n, j);
            if e == n {
                Option::Some(id)
            } else {
                Option::None
            }
        },
    }
}

/// Reads the members of a network object, exactly as [`net_members`] states
/// it.
fn net_members_exec(s: &str, n: usize, i: usize, found: Option<String>) -> (r: Option<
    (Option<String>, usize),
>)
    requires
        n == s@.len(),
        i <= n,
    ensures
        r is Some <==> net_members(s@, i as int, opt_view(found)) is Some,
        r matches Some((f2, j)) ==> net_members(s@, i as int, opt_view(found)) == Option::Some(
            (opt_view(f2), j as int),
        ) && i < j <= n,
    decreases n - i,
{
    let k = ws_exec(s, n, i);
    if k >= n {
        return Option::None;
    }
    if s.get_char(k) != '"' {
        return Option::None;
    }
    match string_body_exec(s, n, k + 1) {
        Option::None => Option::None,
        Option::Some((key, j)) => {
            let m = ws_exec(s, n, j);
            if m >= n {
                return Option::None;
            }
            if s.get_char(m) != ':' {
                return Option::None;
            }
            let v = ws_exec(s, n, m + 1);
            let ip_key = String::from_str("IPAddress");
            if key == ip_key && found.is_none() {
                if v >= n {
                    return Option::None;
                }
                if s.get_char(v) != '"' {
                    return Option::None;
                }
                match string_body_exec(s, n, v + 1) {
                    Option::None => Option::None,
                    Option::Some((ip, e0)) => {
                        let e = ws_exec(s, n, e0);
                        if e >= n {
                            return Option::None;
                        }
                        let ce = s.get_char(e);
                        if ce == ',' {
                            net_members_exec(s, n, e + 1, Option::Some(ip))
                        } else if ce == '}' {
                            Option::Some((Option::Some(ip), e + 1))
                        } else {
                            Option::None
                        }
                    },
                }
            } else {
                match skip_value_exec(s, n, v) {
                    Option::None => Option::None,
                    Option::Some(e0) => {
                        let e = ws_exec(s, n, e0);
                        if e >= n {
                            return Option::None;
                        }
                        let ce = s.get_char(e);
                        if ce == ',' {
                            net_members_exec(s, n, e + 1, found)
                        } else if ce == '}' {
                            Option::Some((found, e + 1))
                        } else {
                            Option::None
                        }
                    },
                }
            }
        },
    }
}

/// Reads a network object, exactly as [`parse_network`] states it.
fn parse_network_exec(s: &str, n: usize, i: usize) -> (r: Option<(String, usize)>)
    requires
        n == s@.len(),
        i <= n,
    ensures
        r is Some <==> parse_network(s@, i as int) is Some,
        r matches Some((ip, j)) ==> parse_network(s@, i as int) == Option::Some((ip@, j as int))
            && i < j <= n,
{
    if i >= n {
        return Option::None;
    }
    if s.get_char(i) != '{' {
        return Option::None;
    }
    match net_members_exec(s, n, i + 1, Option::None) {
        Option::None => Option::None,
        Option::Some((found, j)) => match found {
            Option::None => Option::None,
            Option::Some(ip) => Option::Some((ip, j)),
        },
    }
}

/// Reads the members of the `Networks` object, exactly as
/// [`networks_members`] states it.
fn networks_members_exec(s: &str, n: usize, i: usize, acc: Vec<(String, Network)>) -> (r: Option<
    (Vec<(String, Network)>, usize),
>)
    requires
        n == s@.len(),
        i <= n,
    ensures
        r is Some <==> networks_members(s@, i as int, nets_view(acc@)) is Some,
        r matches Some((nets, j)) ==> networks_members(s@, i as int, nets_view(acc@))
            == Option::Some((nets_view(nets@), j as int)) && i < j <= n,
    decreases n - i,
{
    let ghost acc0 = nets_view(acc@);
    let k = ws_exec(s, n, i);
    if k >= n {
        return Option::None;
    }
    if s.get_char(k) != '"' {
        return Option::None;
    }
    match string_body_exec(s, n, k + 1) {
        Option::None => Option::None,
        Option::Some((name, j)) => {
            let m = ws_exec(s, n, j);
            if m >= n {
                return Option::None;
            }
            if s.get_char(m) != ':' {
                return Option::None;
            }
            let v = ws_exec(s, n, m + 1);
            match parse_network_exec(s, n, v) {
                Option::None => Option::None,
                Option::Some((ip, e0)) => {
                    let e = ws_exec(s, n, e0);
                    if e >= n {
                        return Option::None;
                    }
                    let ce = s.get_char(e);
                    if ce == ',' || ce == '}' {
                        let ghost namev = name@;
                        let ghost ipv = ip@;
                        let mut acc2 = acc;
                        acc2.push((name, Network { ip_address: ip }));
                        proof {
                            assert(nets_view(acc2@) =~= acc0.push((namev, ipv)));
                        }
                        if ce == ',' {
                            networks_members_exec(s, n, e + 1, acc2)
                        } else {
                            Option::Some((acc2, e + 1))
                        }
                    } else {
                        Option::None
                    }
                },
            }
        },
    }
}

/// Reads the `Networks` object, exactly as [`parse_networks`] states it.
fn parse_networks_exec(s: &str, n: usize, i: usize) -> (r: Option<(Vec<(String, Network)>, usize)>)
    requires
        n == s@.len(),
        i <= n,
    ensures
        r is Some <==> parse_networks(s@, i as int) is Some,
        r matches Some((nets, j)) ==> parse_networks(s@, i as int) == Option::Some(
            (nets_view(nets@), j as int),
        ) && i < j <= n,
{
    if i >= n {
        return Option::None;
    }
    if s.get_char(i) != '{' {
        return Option::None;
    }
    let k = ws_exec(s, n, i + 1);
    if k < n && s.get_char(k) == '}' {
        let empty: Vec<(String, Network)> = Vec::new();
        proof {
            assert(nets_view(empty@) =~= Seq::<(Seq<char>, Seq<char>)>::empty());
        }
        Option::Some((empty, k + 1))
    } else {
        let start: Vec<(String, Network)> = Vec::new();
        proof {
            assert(nets_view(start@) =~= Seq::<(Seq<char>, Seq<char>)>::empty());
        }
        networks_members_exec(s, n, i + 1, start)
    }
}

/// Reads the members of a `NetworkSettings` object, exactly as
/// [`ns_members`] states it.
fn ns_members_exec(s: &str, n: usize, i: usize, found: Option<Vec<(String, Network)>>) -> (r:
    Option<(Option<Vec<(String, Network)>>, usize)>)
    requires
        n == s@.len(),
        i <= n,
    ensures
        r is Some <==> ns_members(s@, i as int, opt_nets(found)) is Some,
        r matches Some((f2, j)) ==> ns_members(s@, i as int, opt_nets(found)) == Option::Some(
            (opt_nets(f2), j as int),
        ) && i < j <= n,
    decreases n - i,
{
    let k = ws_exec(s, n, i);
    if k >= n {
        return Option::None;
    }
    if s.get_char(k) != '"' {
        return Option::None;
    }
    match string_body_exec(s, n, k + 1) {
        Option::None => Option::None,
        Option::Some((key, j)) => {
            let m = ws_exec(s, n, j);
            if m >= n {
                return Option::None;
            }
            if s.get_char(m) != ':' {
                return Option::None;
            }
            let v = ws_exec(s, n, m + 1);
            let nets_key = String::from_str("Networks");
            if key == nets_key && found.is_none() {
                match parse_networks_exec(s, n, v) {
                    Option::None => Option::None,
                    Option::Some((nets, e0)) => {
                        let e = ws_exec(s, n, e0);
                        if e >= n {
                            return Option::None;
                        }
                        let ce = s.get_char(e);
                        if ce == ',' {
                            ns_members_exec(s, n, e + 1, Option::Some(nets))
                        } else if ce == '}' {
                            Option::Some((Option::Some(nets), e + 1))
                        } else {
                            Option::None
                        }
                    },
                }
            } else {
                match skip_value_exec(s, n, v) {
                    Option::None => Option::None,
                    Option::Some(e0) => {
                        let e = ws_exec(s, n, e0);
                        if e >= n {
                            return Option::None;
                        }
                        let ce = s.get_char(e);
                        if ce == ',' {
                            ns_members_exec(s, n, e + 1, found)
                        } else if ce == '}' {
                            Option::Some((found, e + 1))
                        } else {
                            Option::None
                        }
                    },
                }
            }
        },
    }
}

/// Reads a `NetworkSettings` object, exactly as [`parse_network_settings`]
/// states it.
fn parse_network_settings_exec(s: &str, n: usize, i: usize) -> (r: Option<
    (Vec<(String, Network)>, usize),
>)
    requires
        n == s@.len(),
        i <= n,
    ensures
        r is Some <==> parse_network_settings(s@, i as int) is Some,
        r matches Some((nets, j)) ==> parse_network_settings(s@, i as int) == Option::Some(
            (nets_view(nets@), j as int),
        ) && i < j <= n,
{
    if i >= n {
        return Option::None;
    }
    if s.get_char(i) != '{' {
        return Option::None;
    }
    match ns_members_exec(s, n, i + 1, Option::None) {
        Option::None => Option::None,
        Option::Some((found, j)) => match found {
            Option::None => Option::None,
            Option::Some(nets) => Option::Some((nets, j)),
        },
    }
}

/// Reads the members of a container object, exactly as [`container_members`]
/// states it.
fn container_members_exec(
    s: &str,
    n: usize,
    i: usize,
    id: Option<String>,
    nets: Option<Vec<(String, Network)>>,
) -> (r: Option<((Option<String>, Option<Vec<(String, Network)>>), usize)>)
    requires
        n == s@.len(),
        i <= n,
    ensures
        r is Some <==> container_members(s@, i as int, opt_view(id), opt_nets(nets)) is Some,
        r matches Some(((id2, nets2), j)) ==> container_members(
            s@,
            i as int,
            opt_view(id),
            opt_nets(nets),
        ) == Option::Some(((opt_view(id2), opt_nets(nets2)), j as int)) && i < j <= n,
    decreases n - i,
{
    let k = ws_exec(s, n, i);
    if k >= n {
        return Option::None;
    }
    if s.get_char(k) != '"' {
        return Option::None;
    }
    match string_body_exec(s, n, k + 1) {
        Option::None => Option::None,
        Option::Some((key, j)) => {
            let m = ws_exec(s, n, j);
            if m >= n {
                return Option::None;
            }
            if s.get_char(m) != ':' {
                return Option::None;
            }
            let v = ws_exec(s, n, m + 1);
            let id_key = String::from_str("Id");
            let ns_key = String::from_str("NetworkSettings");
            if key == id_key && id.is_none() {
                if v >= n {
                    return Option::None;
                }
                if s.get_char(v) != '"' {
                    return Option::None;
                }
                match string_body_exec(s, n, v + 1) {
                    Option::None => Option::None,
                    Option::Some((idv, e0)) => {
                        let e = ws_exec(s, n, e0);
                        if e >= n {
                            return Option::None;
                        }
                        let ce = s.get_char(e);
                        if ce == ',' {
                            container_members_exec(s, n, e + 1, Option::Some(idv), nets)
                        } else if ce == '}' {
                            Option::Some(((Option::Some(idv), nets), e + 1))
                        } else {
                            Option::None
                        }
                    },
                }
            } else if key == ns_key && nets.is_none() {
                match parse_network_settings_exec(s, n, v) {
                    Option::None => Option::None,
                    Option::Some((ns, e0)) => {
                        let e = ws_exec(s, n, e0);
                        if e >= n {
                            return Option::None;
                        }
                        let ce = s.get_char(e);
                        if ce == ',' {
                            container_members_exec(s, n, e + 1, id, Option::Some(ns))
                        } else if ce == '}' {
                            Option::Some(((id, Option::Some(ns)), e + 1))
                        } else {
                            Option::None
                        }
                    },
                }
            } else {
                match skip_value_exec(s, n, v) {
                    Option::None => Option::None,
                    Option::Some(e0) => {
                        let e = ws_exec(s, n, e0);
                        if e >= n {
                            return Option::None;
                        }
                        let ce = s.get_char(e);
                        if ce == ',' {
                            container_members_exec(s, n, e + 1, id, nets)
                        } else if ce == '}' {
                            Option::Some(((id, nets), e + 1))
                        } else {
                            Option::None
                        }
                    },
                }
            }
        },
    }
}

/// Reads a container object, exactly as [`parse_container`] states it.
fn parse_container_exec(s: &str, n: usize, i: usize) -> (r: Option<(ContainerDescriptor, usize)>)
    requires
        n == s@.len(),
        i <= n,
    ensures
        r is Some <==> parse_container(s@, i as int) is Some,
        r matches Some((c, j)) ==> parse_container(s@, i as int) == Option::Some((c@, j as int))
            && i < j <= n,
{
    if i >= n {
        return Option::None;
    }
    if s.get_char(i) != '{' {
        return Option::None;
    }
    match container_members_exec(s, n, i + 1, Option::None, Option::None) {
        Option::None => Option::None,
        Option::Some(((id_opt, nets_opt), j)) => match (id_opt, nets_opt) {
            (Option::Some(id), Option::Some(nets)) => {
                let ghost idv = id@;
                let ghost netsv = nets_view(nets@);
                let c = ContainerDescriptor {
                    id,
                    network_settings: NetworkSettings { networks: nets },
                };
                proof {
                    assert(c@.networks =~= netsv);
                    assert(c@ == ContainerView { id: idv, networks: netsv });
                }
                Option::Some((c, j))
            },
            _ => Option::None,
        },
    }
}

/// Reads the elements of an array of container objects, exactly as
/// [`container_elems`] states it.
fn container_elems_exec(s: &str, n: usize, i: usize, acc: Vec<ContainerDescriptor>) -> (r: Option<
    (Vec<ContainerDescriptor>, usize),
>)
    requires
        n == s@.len(),
        i <= n,
    ensures
        r is Some <==> container_elems(s@, i as int, containers_view(acc@)) is Some,
        r matches Some((cs, j)) ==> container_elems(s@, i as int, containers_view(acc@))
            == Option::Some((containers_view(cs@), j as int)) && i < j <= n,
    decreases n - i,
{
    let ghost acc0 = containers_view(acc@);
    let k = ws_exec(s, n, i);
    match parse_container_exec(s, n, k) {
        Option::None => Option::None,
        Option::Some((c, j)) => {
            let e = ws_exec(s, n, j);
            if e >= n {
                return Option::None;
            }
            let ce = s.get_char(e);
            if ce == ',' || ce == ']' {
                let ghost cv = c@;
                let mut acc2 = acc;
                acc2.push(c);
                proof {
                    assert(containers_view(acc2@) =~= acc0.push(cv));
                }
                if ce == ',' {
                    container_elems_exec(s, n, e + 1, acc2)
                } else {
                    Option::Some((acc2, e + 1))
                }
            } else {
                Option::None
            }
        },
    }
}

/// Reads a whole container listing body, exactly as [`parse_container_list`]
/// states it.
pub fn parse_container_list_exec(s: &str) -> (r: Option<Vec<ContainerDescriptor>>)
    ensures
        r is Some <==> parse_container_list(s@) is Some,
        r matches Some(cs) ==> parse_container_list(s@) == Option::Some(containers_view(cs@)),
{
    let n = s.unicode_len();
    let k = ws_exec(s, n, 0);
    if k >= n {
        return Option::None;
    }
    if s.get_char(k) != '[' {
        return Option::None;
    }
    let k2 = ws_exec(s, n, k + 1);
    if k2 < n && s.get_char(k2) == ']' {
        let e = ws_exec(s, n, k2 + 1);
        if e == n {
            let empty: Vec<ContainerDescriptor> = Vec::new();
            proof {
                assert(containers_view(empty@) =~= Seq::<ContainerView>::empty());
            }
            Option::Some(empty)
        } else {
            Option::None
        }
    } else {
        let start: Vec<ContainerDescriptor> = Vec::new();
        proof {
            assert(containers_view(start@) =~= Seq::<ContainerView>::empty());
        }
        match container_elems_exec(s, n, k + 1, start) {
            Option::None => Option::None,
            Option::Some((cs, j)) => {
                let e = ws_exec(s, n, j);
                if e == n {
                    Option::Some(cs)
                } else {
                    Option::None
                }
            },
        }
    }
}

} // verus!
