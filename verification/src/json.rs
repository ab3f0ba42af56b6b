//! Verified JSON text production for the request bodies and filters the
//! daemon expects, with the exact field names of its wire contract.

use vstd::prelude::*;

use crate::types::{CreateContainer, PortBinding};

verus! {

/// Relies on `String::push`: appends exactly the given character at the end.
#[verifier::external_body]
pub fn push_char(out: &mut String, c: char)
    ensures
        final(out)@ == old(out)@.push(c),
{
    out.push(c);
}

/// The lowercase hex digit of a value below 16.
pub open spec fn hex_lower(d: u8) -> char
    recommends
        d < 16,
{
    if d < 10 {
        (d + 48) as char
    } else {
        (d + 87) as char
    }
}

/// How one character appears inside a JSON string literal: quote and
/// backslash get a backslash escape, control characters get their short
/// escape or a `\u00xx` escape, everything else stands as itself.
pub open spec fn esc_char(c: char) -> Seq<char> {
    if c == '"' {
        seq!['\\', '"']
    } else if c == '\\' {
        seq!['\\', '\\']
    } else if c == '\u{8}' {
        seq!['\\', 'b']
    } else if c == '\t' {
        seq!['\\', 't']
    } else if c == '\n' {
        seq!['\\', 'n']
    } else if c == '\u{c}' {
        seq!['\\', 'f']
    } else if c == '\r' {
        seq!['\\', 'r']
    } else if (c as u32) < 0x20 {
        seq!['\\', 'u', '0', '0', hex_lower((c as u32 / 16) as u8), hex_lower((c as u32 % 16) as u8)]
    } else {
        seq![c]
    }
}

/// The body of a JSON string literal holding the characters of `s`.
pub open spec fn json_escaped(s: Seq<char>) -> Seq<char>
    decreases s.len(),
{
    if s.len() == 0 {
        Seq::empty()
    } else {
        json_escaped(s.drop_last()) + esc_char(s.last())
    }
}

/// The JSON string literal holding the characters of `s`.
pub open spec fn json_string(s: Seq<char>) -> Seq<char> {
    seq!['"'] + json_escaped(s) + seq!['"']
}

/// The members of a JSON array of string literals, comma-separated.
pub open spec fn json_string_array_inner(elems: Seq<Seq<char>>) -> Seq<char>
    decreases elems.len(),
{
    if elems.len() == 0 {
        Seq::empty()
    } else if elems.len() == 1 {
        json_string(elems[0])
    } else {
        json_string_array_inner(elems.drop_last()) + seq![','] + json_string(elems.last())
    }
}

/// A JSON array of string literals.
pub open spec fn json_string_array(elems: Seq<Seq<char>>) -> Seq<char> {
    seq!['['] + json_string_array_inner(elems) + seq![']']
}

/// The decimal digits of `n`, most significant first.
pub open spec fn dec_str(n: int) -> Seq<char>
    recommends
        n >= 0,
    decreases n,
{
    if 0 <= n < 10 {
        seq![((n + 48) as u8) as char]
    } else if n >= 10 {
        dec_str(n / 10).push((((n % 10) + 48) as u8) as char)
    } else {
        Seq::empty()
    }
}

/// Appends the escaped form of `s` to `out`.
fn write_escaped(out: &mut String, s: &str)
    ensures
        final(out)@ == old(out)@ + json_escaped(s@),
{
    let n = s.unicode_len();
    let mut i: usize = 0;
    proof {
        assert(s@.take(0) =~= Seq::<char>::empty());
        assert(out@ + json_escaped(s@.take(0)) =~= out@);
    }
    while i < n
        invariant
            n == s@.len(),
            i <= n,
            out@ == old(out)@ + json_escaped(s@.take(i as int)),
        decreases n - i,
    {
        let c = s.get_char(i);
        let ghost before = out@;
        if c == '"' {
            push_char(out, '\\');
            push_char(out, '"');
        } else if c == '\\' {
            push_char(out, '\\');
            push_char(out, '\\');
        } else if c == '\u{8}' {
            push_char(out, '\\');
            push_char(out, 'b');
        } else if c == '\t' {
            push_char(out, '\\');
            push_char(out, 't');
        } else if c == '\n' {
            push_char(out, '\\');
            push_char(out, 'n');
        } else if c == '\u{c}' {
            push_char(out, '\\');
            push_char(out, 'f');
        } else if c == '\r' {
            push_char(out, '\\');
            push_char(out, 'r');
        } else if (c as u32) < 0x20 {
            let code = c as u32;
            push_char(out, '\\');
            push_char(out, 'u');
            push_char(out, '0');
            push_char(out, '0');
            let hi = (code / 16) as u8;
            let lo = (code % 16) as u8;
            push_char(out, if hi < 10 { (hi + 48) as char } else { (hi + 87) as char });
            push_char(out, if lo < 10 { (lo + 48) as char } else { (lo + 87) as char });
        } else {
            push_char(out, c);
        }
        proof {
            assert(out@ =~= before + esc_char(s@[i as int]));
            assert(s@.take(i + 1).drop_last() =~= s@.take(i as int));
            assert(s@.take(i + 1).last() == s@[i as int]);
            assert(out@ =~= old(out)@ + json_escaped(s@.take(i + 1)));
        }
        i = i + 1;
    }
    proof {
        assert(s@.take(n as int) =~= s@);
    }
}

/// Appends the JSON string literal holding `s` to `out`.
pub fn write_json_string(out: &mut String, s: &str)
    ensures
        final(out)@ == old(out)@ + json_string(s@),
{
    push_char(out, '"');
    write_escaped(out, s);
    push_char(out, '"');
    proof {
        assert(out@ =~= old(out)@ + json_string(s@));
    }
}

/// Appends a JSON array of string literals holding the elements of `elems`
/// to `out`.
pub fn write_json_string_array(out: &mut String, elems: &Vec<String>)
    ensures
        final(out)@ == old(out)@ + json_string_array(elems.deep_view()),
{
    push_char(out, '[');
    let n = elems.len();
    let mut i: usize = 0;
    proof {
        assert(elems.deep_view().take(0) =~= Seq::<Seq<char>>::empty());
    }
    while i < n
        invariant
            n == elems.len(),
            elems.deep_view().len() == n,
            i <= n,
            out@ == old(out)@ + seq!['['] + json_string_array_inner(elems.deep_view().take(i as int)),
        decreases n - i,
    {
        let ghost before = out@;
        if i > 0 {
            push_char(out, ',');
        }
        write_json_string(out, elems[i].as_str());
        proof {
            let dv = elems.deep_view();
            assert(dv[i as int] == elems[i as int]@);
            assert(dv.take(i + 1).drop_last() =~= dv.take(i as int));
            assert(dv.take(i + 1).last() == dv[i as int]);
            if i > 0 {
                assert(out@ =~= before + seq![','] + json_string(dv[i as int]));
                assert(out@ =~= old(out)@ + seq!['['] + json_string_array_inner(dv.take(i + 1)));
            } else {
                assert(dv.take(1).len() == 1);
                assert(out@ =~= before + json_string(dv[i as int]));
                assert(out@ =~= old(out)@ + seq!['['] + json_string_array_inner(dv.take(i + 1)));
            }
        }
        i = i + 1;
    }
    push_char(out, ']');
    proof {
        assert(elems.deep_view().take(n as int) =~= elems.deep_view());
        assert(out@ =~= old(out)@ + json_string_array(elems.deep_view()));
    }
}

/// One port binding as the daemon reads it.
pub open spec fn binding_json(b: PortBinding) -> Seq<char> {
    "{\"HostPort\":"@ + json_string(b.host_port@) + seq!['}']
}

/// The members of a JSON array of port bindings, comma-separated.
pub open spec fn bindings_inner(bs: Seq<PortBinding>) -> Seq<char>
    decreases bs.len(),
{
    if bs.len() == 0 {
        Seq::empty()
    } else if bs.len() == 1 {
        binding_json(bs[0])
    } else {
        bindings_inner(bs.drop_last()) + seq![','] + binding_json(bs.last())
    }
}

/// One member of the `PortBindings` object: a `"port/proto"` key and its
/// bindings.
pub open spec fn pb_entry_json(e: (String, Vec<PortBinding>)) -> Seq<char> {
    json_string(e.0@) + seq![':', '['] + bindings_inner(e.1@) + seq![']']
}

/// The members of the `PortBindings` object, comma-separated.
pub open spec fn pb_members(ms: Seq<(String, Vec<PortBinding>)>) -> Seq<char>
    decreases ms.len(),
{
    if ms.len() == 0 {
        Seq::empty()
    } else if ms.len() == 1 {
        pb_entry_json(ms[0])
    } else {
        pb_members(ms.drop_last()) + seq![','] + pb_entry_json(ms.last())
    }
}

/// The JSON body of a container creation request, with the daemon's exact
/// field names.
pub open spec fn create_json(c: CreateContainer) -> Seq<char> {
    match c {
        CreateContainer::NetworkMode { image, network_mode } => "{\"Image\":"@ + json_string(
            image@,
        ) + ",\"NetworkMode\":"@ + json_string(network_mode@) + seq!['}'],
        CreateContainer::PortBindings { image, port_bindings } => "{\"Image\":"@ + json_string(
            image@,
        ) + ",\"PortBindings\":{"@ + pb_members(port_bindings@) + seq!['}', '}'],
    }
}

/// Appends one port binding object to `out`.
fn write_binding(out: &mut String, b: &PortBinding)
    ensures
        final(out)@ == old(out)@ + binding_json(*b),
{
    out.append("{\"HostPort\":");
    write_json_string(out, b.host_port.as_str());
    push_char(out, '}');
    proof {
        assert(out@ =~= old(out)@ + binding_json(*b));
    }
}

/// Appends one member of the `PortBindings` object to `out`.
fn write_pb_entry(out: &mut String, e: &(String, Vec<PortBinding>))
    ensures
        final(out)@ == old(out)@ + pb_entry_json(*e),
{
    write_json_string(out, e.0.as_str());
    push_char(out, ':');
    push_char(out, '[');
    let n = e.1.len();
    let mut i: usize = 0;
    proof {
        assert(e.1@.take(0) =~= Seq::<PortBinding>::empty());
    }
    while i < n
        invariant
            n == e.1.len(),
            i <= n,
            out@ == old(out)@ + json_string(e.0@) + seq![':', '['] + bindings_inner(
                e.1@.take(i as int),
            ),
        decreases n - i,
    {
        let ghost before = out@;
        if i > 0 {
            push_char(out, ',');
        }
        write_binding(out, &e.1[i]);
        proof {
            assert(e.1@.take(i + 1).drop_last() =~= e.1@.take(i as int));
            assert(e.1@.take(i + 1).last() == e.1@[i as int]);
            if i > 0 {
                assert(out@ =~= before + seq![','] + binding_json(e.1@[i as int]));
            } else {
                assert(e.1@.take(1).len() == 1);
                assert(out@ =~= before + binding_json(e.1@[i as int]));
            }
            assert(out@ =~= old(out)@ + json_string(e.0@) + seq![':', '['] + bindings_inner(
                e.1@.take(i + 1),
            ));
        }
        i = i + 1;
    }
    push_char(out, ']');
    proof {
        assert(e.1@.take(n as int) =~= e.1@);
        assert(out@ =~= old(out)@ + pb_entry_json(*e));
    }
}

/// The JSON text of a container creation request body, exactly as
/// [`create_json`] states it.
pub fn create_container_body(c: &CreateContainer) -> (r: String)
    ensures
        r@ == create_json(*c),
{
    let mut out = String::new();
    match c {
        CreateContainer::NetworkMode { image, network_mode } => {
            out.append("{\"Image\":");
            write_json_string(&mut out, image.as_str());
            out.append(",\"NetworkMode\":");
            write_json_string(&mut out, network_mode.as_str());
            push_char(&mut out, '}');
            proof {
                assert(out@ =~= create_json(*c));
            }
        },
        CreateContainer::PortBindings { image, port_bindings } => {
            out.append("{\"Image\":");
            write_json_string(&mut out, image.as_str());
            out.append(",\"PortBindings\":{");
            let n = port_bindings.len();
            let mut i: usize = 0;
            let ghost head = out@;
            proof {
                assert(port_bindings@.take(0) =~= Seq::<(String, Vec<PortBinding>)>::empty());
                assert(out@ =~= head + pb_members(port_bindings@.take(0)));
            }
            while i < n
                invariant
                    n == port_bindings.len(),
                    i <= n,
                    out@ == head + pb_members(port_bindings@.take(i as int)),
                decreases n - i,
            {
                let ghost before = out@;
                if i > 0 {
                    push_char(&mut out, ',');
                }
                write_pb_entry(&mut out, &port_bindings[i]);
                proof {
                    assert(port_bindings@.take(i + 1).drop_last() =~= port_bindings@.take(i as int));
                    assert(port_bindings@.take(i + 1).last() == port_bindings@[i as int]);
                    if i > 0 {
                        assert(out@ =~= before + seq![','] + pb_entry_json(
                            port_bindings@[i as int],
                        ));
                    } else {
                        assert(port_bindings@.take(1).len() == 1);
                        assert(out@ =~= before + pb_entry_json(port_bindings@[i as int]));
                    }
                    assert(out@ =~= head + pb_members(port_bindings@.take(i + 1)));
                }
                i = i + 1;
            }
            push_char(&mut out, '}');
            push_char(&mut out, '}');
            proof {
                assert(port_bindings@.take(n as int) =~= port_bindings@);
                assert(out@ =~= create_json(*c));
            }
        },
    }
    out
}

/// Appends the decimal digits of `n` to `out`.
pub fn write_dec(out: &mut String, n: u16)
    ensures
        final(out)@ == old(out)@ + dec_str(n as int),
    decreases n,
{
    if n < 10 {
        push_char(out, ((n as u8) + 48) as char);
    } else {
        write_dec(out, n / 10);
        push_char(out, (((n % 10) as u8) + 48) as char);
    }
}

} // verus!
