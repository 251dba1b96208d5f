use vstd::prelude::*;

use crate::hex::{hex_digit_of, hex_join, hex_pair};

verus! {

/// A parameter of an endpoint that a device offers: its name and type.
pub struct SpecificationParameter {
    pub name: String,
    pub param_type: String,
}

/// An endpoint (a method and its parameters) that a device offers.
pub struct SpecificationEndpoint {
    pub method: String,
    pub parameters: Vec<SpecificationParameter>,
}

/// What a device tells the network about itself: its id, its type, the MAC
/// address of its station interface and its endpoints.
pub struct Specification {
    pub id: String,
    pub device_type: String,
    pub mac: String,
    pub endpoints: Vec<SpecificationEndpoint>,
}

/// ASCII bytes read as characters.
pub open spec fn ascii_text(bytes: Seq<u8>) -> Seq<char> {
    bytes.map_values(|b: u8| b as char)
}

/// The MAC address as six upper-case hex pairs joined by `sep`.
pub open spec fn mac_text(mac: Seq<u8>, sep: u8) -> Seq<char> {
    ascii_text(hex_join(mac, sep))
}

/// The id a device announces: its type, a dash, and its MAC address with
/// dashes between the pairs.
pub open spec fn device_id_text(device_type: Seq<char>, mac: Seq<u8>) -> Seq<char> {
    device_type + seq!['-'] + mac_text(mac, 0x2D)
}

/// `String::push`: appends one character to the string.
#[verifier::external_body]
fn push_char(s: &mut String, c: char)
    ensures
        final(s)@ == old(s)@.push(c),
{
    s.push(c)
}

/// Appends the bytes of `bytes` as upper-case hex pairs joined by `sep`.
fn push_hex_joined(s: &mut String, bytes: &[u8], sep: u8)
    requires
        sep < 0x80,
    ensures
        final(s)@ == old(s)@ + mac_text(bytes@, sep),
{
    let ghost start = s@;
    assert(bytes@.take(0) =~= Seq::<u8>::empty());
    assert(start + mac_text(Seq::<u8>::empty(), sep) =~= start);
    for i in 0..bytes.len()
        invariant
            sep < 0x80,
            s@ == start + mac_text(bytes@.take(i as int), sep),
    {
        let byte = bytes[i];
        let ghost before = bytes@.take(i as int);
        proof {
            assert(bytes@.take(i + 1).drop_last() =~= before);
            assert(bytes@.take(i + 1).last() == byte);
        }
        if i > 0 {
            push_char(s, sep as char);
        }
        assert(byte >> 4u8 < 16) by (bit_vector);
        assert(byte & 0x0Fu8 < 16) by (bit_vector);
        push_char(s, hex_digit_of(byte >> 4) as char);
        push_char(s, hex_digit_of(byte & 0x0F) as char);
        proof {
            if i == 0 {
                assert(bytes@.take(1) =~= seq![byte]);
                assert(hex_join(bytes@.take(1), sep) == hex_pair(byte));
                assert(s@ =~= start + mac_text(bytes@.take(1), sep));
            } else {
                assert(hex_join(bytes@.take(i + 1), sep) == hex_join(before, sep) + seq![sep]
                    + hex_pair(byte));
                assert(s@ =~= start + mac_text(bytes@.take(i + 1), sep));
            }
        }
    }
    assert(bytes@.take(bytes.len() as int) =~= bytes@);
}

/// Builds what a device announces from its type, the MAC address of its
/// station interface and its endpoints.
pub fn build_specification(
    device_type: String,
    mac: [u8; 6],
    endpoints: Vec<SpecificationEndpoint>,
) -> (specification: Specification)
    ensures
        specification.id@ == device_id_text(device_type@, mac@),
        specification.device_type@ == device_type@,
        specification.mac@ == mac_text(mac@, 0x3A),
        specification.endpoints@ == endpoints@,
{
    let mut id = device_type.clone();
    push_char(&mut id, '-');
    push_hex_joined(&mut id, mac.as_slice(), 0x2D);
    let mut mac_string = String::new();
    push_hex_joined(&mut mac_string, mac.as_slice(), 0x3A);
    assert(id@ =~= device_id_text(device_type@, mac@));
    assert(mac_string@ =~= mac_text(mac@, 0x3A));
    Specification { id, device_type, mac: mac_string, endpoints }
}

/// The page text before the content.
pub open spec fn page_head() -> Seq<char> {
    r#"
<!DOCTYPE html>
<html>
    <head>
        <meta charset="utf-8">
        <title>esp-rs web server</title>
    </head>
    <body>
        "#@
}

/// The page text after the content.
pub open spec fn page_tail() -> Seq<char> {
    r#"
    </body>
</html>
"#@
}

/// The HTML page that shows `content` in its body.
pub fn templated(content: &str) -> (page: String)
    ensures
        page@ == page_head() + content@ + page_tail(),
{
    let mut page = String::from_str(
        r#"
<!DOCTYPE html>
<html>
    <head>
        <meta charset="utf-8">
        <title>esp-rs web server</title>
    </head>
    <body>
        "#,
    );
    page.append(content);
    page.append(
        r#"
    </body>
</html>
"#,
    );
    page
}

/// The index page of a relay device.
pub fn index_html() -> (page: String)
    ensures
        page@ == page_head() + "relay"@ + page_tail(),
{
    templated("relay")
}

} // verus!
