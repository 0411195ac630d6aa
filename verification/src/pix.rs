//! Pix payment codes (the EMV "copia e cola" text that a QR code carries).
//!
//! A code is a sequence of fields, each written as a two-digit identifier, a
//! two-digit length and the payload, and closed by field 63 holding the
//! upper-case hexadecimal CRC-16 of everything before its digits.

use vstd::prelude::*;
use crate::money::Cost;
use crate::text::{decimal_text_2, hex_upper_text, push_decimal_2, push_hex_upper};

verus! {

/// The CRC-16 (poly 0x1021, initial value 0xFFFF, no reflection, no final
/// XOR; the catalogue's `CRC_16_IBM_3740`) of a sequence of bytes.
pub uninterp spec fn crc16_ibm_3740(bytes: Seq<u8>) -> u16;

/// The CRC-16 of the UTF-8 bytes of `text`, through `crc::Crc::checksum` with
/// `crc::CRC_16_IBM_3740`; the value is named by `crc16_ibm_3740`.
#[verifier::external_body]
fn crc16_of(text: &str) -> (r: u16)
    ensures
        r == crc16_ibm_3740(vstd::utf8::encode_utf8(text@)),
{
    crc::Crc::<u16>::new(&crc::CRC_16_IBM_3740).checksum(text.as_bytes())
}

/// An EMV field: identifier and payload length (in characters), each with at
/// least two digits, then the payload.
pub open spec fn emv_field_text(id: nat, payload: Seq<char>) -> Seq<char> {
    decimal_text_2(id) + decimal_text_2(payload.len()) + payload
}

/// The check text of a code body: the CRC of the body followed by the header
/// "6304" of the CRC field, in upper-case hexadecimal without leading zeros.
pub open spec fn crc_text(body: Seq<char>) -> Seq<char> {
    hex_upper_text(crc16_ibm_3740(vstd::utf8::encode_utf8(body + "6304"@)) as nat)
}

/// Every field of a Pix code but the CRC.
pub open spec fn pix_body(key: Seq<char>, name: Seq<char>, city: Seq<char>, amount: Option<Seq<char>>) -> Seq<char> {
    emv_field_text(0, "01"@)
        + emv_field_text(26, emv_field_text(0, "br.gov.bcb.pix"@) + emv_field_text(1, key))
        + emv_field_text(52, "0000"@)
        + emv_field_text(53, "986"@)
        + (match amount {
            Some(a) => emv_field_text(54, a),
            None => Seq::empty(),
        })
        + emv_field_text(58, "BR"@)
        + emv_field_text(59, name)
        + emv_field_text(60, city)
        + emv_field_text(62, emv_field_text(5, "***"@))
}

/// The full Pix code: the body, then field 63 with the body's CRC text.
pub open spec fn pix_code(key: Seq<char>, name: Seq<char>, city: Seq<char>, amount: Option<Seq<char>>) -> Seq<char> {
    let body = pix_body(key, name, city, amount);
    body + emv_field_text(63, crc_text(body))
}

/// Writes one EMV field.
pub fn emv_field(id: u8, payload: &str) -> (r: String)
    ensures
        r@ == emv_field_text(id as nat, payload@),
{
    let mut s = String::new();
    push_decimal_2(&mut s, id as u64);
    let length = payload.unicode_len();
    push_decimal_2(&mut s, length as u64);
    s.append(payload);
    proof {
        assert(s@ =~= emv_field_text(id as nat, payload@));
    }
    s
}

/// The CRC of `content` followed by "6304", in upper-case hexadecimal.
pub fn calculate_crc(content: &str) -> (r: String)
    ensures
        r@ == crc_text(content@),
{
    let mut checked = String::from_str(content);
    checked.append("6304");
    let crc = crc16_of(checked.as_str());
    let mut s = String::new();
    push_hex_upper(&mut s, crc as u64);
    proof {
        assert(s@ =~= crc_text(content@));
    }
    s
}

/// The printed amount, where there is one.
pub open spec fn amount_text(amount: Option<Cost>) -> Option<Seq<char>> {
    match amount {
        Some(c) => Some(c.display()),
        None => None,
    }
}

/// Writes the Pix code that asks for a payment to `key`, received by `name`
/// in `city`, of `amount` where one is given (open amount otherwise).
pub fn generate_emv_pix(key: &str, name: &str, city: &str, amount: Option<Cost>) -> (r: String)
    ensures
        r@ == pix_code(key@, name@, city@, amount_text(amount)),
        r@ == pix_code(key@, name@, city@, match amount {
            Some(given) => Some(given.display()),
            None => None::<Seq<char>>,
        }),
{
    let emv_version = emv_field(0, "01");
    let merchant_info = {
        let gui = emv_field(0, "br.gov.bcb.pix");
        let pix = emv_field(1, key);
        let mut inner = gui;
        inner.append(pix.as_str());
        emv_field(26, inner.as_str())
    };
    let category = emv_field(52, "0000");
    let currency = emv_field(53, "986");
    let receiver_amount = match amount {
        Some(cost) => {
            let value = cost.to_text();
            emv_field(54, value.as_str())
        },
        None => String::new(),
    };
    let receiver_country = emv_field(58, "BR");
    let receiver_name = emv_field(59, name);
    let receiver_city = emv_field(60, city);
    let inner_additional = emv_field(5, "***");
    let additional = emv_field(62, inner_additional.as_str());
    let mut full_code = emv_version;
    full_code.append(merchant_info.as_str());
    full_code.append(category.as_str());
    full_code.append(currency.as_str());
    full_code.append(receiver_amount.as_str());
    full_code.append(receiver_country.as_str());
    full_code.append(receiver_name.as_str());
    full_code.append(receiver_city.as_str());
    full_code.append(additional.as_str());
    proof {
        assert(full_code@ =~= pix_body(key@, name@, city@, amount_text(amount)));
    }
    let crc_value = calculate_crc(full_code.as_str());
    let crc = emv_field(63, crc_value.as_str());
    let mut final_code = full_code;
    final_code.append(crc.as_str());
    proof {
        assert(final_code@ =~= pix_code(key@, name@, city@, amount_text(amount)));
    }
    final_code
}

/// The number that two decimal digits stand for.
pub open spec fn two_digit_value(s: Seq<char>) -> int {
    (s[0] as int - 48) * 10 + (s[1] as int - 48)
}

proof fn lemma_two_digits(n: nat)
    requires
        n < 100,
    ensures
        decimal_text_2(n).len() == 2,
        two_digit_value(decimal_text_2(n)) == n,
{
    if n >= 10 {
        assert(crate::text::decimal_text(n / 10) == seq![crate::text::digit_lower(n / 10)]);
        assert(crate::text::decimal_text(n) == crate::text::decimal_text(n / 10).push(
            crate::text::digit_lower(n % 10),
        ));
    }
}

/// A field reads back as it was written: where the identifier and the
/// payload's length are below 100, the first two characters give the
/// identifier, the next two the payload's length, and the payload follows.
pub proof fn lemma_emv_field_reads_back(id: nat, payload: Seq<char>)
    requires
        id < 100,
        payload.len() < 100,
    ensures
        emv_field_text(id, payload).len() == payload.len() + 4,
        two_digit_value(emv_field_text(id, payload).subrange(0, 2)) == id,
        two_digit_value(emv_field_text(id, payload).subrange(2, 4)) == payload.len(),
        emv_field_text(id, payload).subrange(4, payload.len() as int + 4) == payload,
{
    lemma_two_digits(id);
    lemma_two_digits(payload.len());
    let t = emv_field_text(id, payload);
    assert(t.subrange(0, 2) =~= decimal_text_2(id));
    assert(t.subrange(2, 4) =~= decimal_text_2(payload.len()));
    assert(t.subrange(4, payload.len() as int + 4) =~= payload);
}

proof fn lemma_hex_four_digits(n: nat)
    requires
        0x1000 <= n < 0x10000,
    ensures
        hex_upper_text(n).len() == 4,
{
    let a = n / 16;
    let b = a / 16;
    let c = b / 16;
    assert(c < 16 && c >= 1);
    assert(hex_upper_text(c).len() == 1);
    assert(hex_upper_text(b).len() == 2);
    assert(hex_upper_text(a).len() == 3);
}

/// The CRC field checks the code: where the CRC is at least 0x1000 (so that
/// its text has four digits), the code is its body, the CRC field's header
/// "6304", and the four hexadecimal digits of the CRC of all that precedes
/// them.
pub proof fn lemma_pix_code_checks_itself(key: Seq<char>, name: Seq<char>, city: Seq<char>, amount: Option<Seq<char>>)
    requires
        crc16_ibm_3740(vstd::utf8::encode_utf8(pix_body(key, name, city, amount) + "6304"@)) >= 0x1000,
    ensures
        ({
            let body = pix_body(key, name, city, amount);
            let code = pix_code(key, name, city, amount);
            &&& crc_text(body).len() == 4
            &&& code == (body + "6304"@) + hex_upper_text(crc16_ibm_3740(vstd::utf8::encode_utf8(body + "6304"@)) as nat)
        }),
{
    let body = pix_body(key, name, city, amount);
    lemma_hex_four_digits(crc16_ibm_3740(vstd::utf8::encode_utf8(body + "6304"@)) as nat);
    reveal_strlit("6304");
    lemma_two_digits(63);
    lemma_two_digits(4);
    assert(decimal_text_2(63) =~= seq!['6', '3']);
    assert(decimal_text_2(4) =~= seq!['0', '4']);
    assert(emv_field_text(63, crc_text(body)) =~= "6304"@ + crc_text(body));
    assert(pix_code(key, name, city, amount) =~= (body + "6304"@) + crc_text(body));
}

/// An amount is asked for by exactly one more field: the body of a code for
/// amount `c` is the body of the open-amount code with field 54, holding
/// `c`'s printed text, inserted after the currency field, whatever `c` is.
pub proof fn lemma_amount_field(key: Seq<char>, name: Seq<char>, city: Seq<char>, c: Cost)
    ensures
        amount_text(Some(c)) == Some(c.display()),
        amount_text(None) is None,
        exists|prefix: Seq<char>, suffix: Seq<char>| {
            &&& pix_body(key, name, city, None) == prefix + suffix
            &&& pix_body(key, name, city, Some(c.display())) == prefix + emv_field_text(54, c.display()) + suffix
            &&& prefix == pix_body(key, name, city, Some(c.display())).subrange(0, prefix.len() as int)
        },
        pix_body(key, name, city, amount_text(Some(c))) == pix_body(key, name, city, Some(c.display())),
{
    let prefix = emv_field_text(0, "01"@)
        + emv_field_text(26, emv_field_text(0, "br.gov.bcb.pix"@) + emv_field_text(1, key))
        + emv_field_text(52, "0000"@)
        + emv_field_text(53, "986"@);
    let suffix = emv_field_text(58, "BR"@)
        + emv_field_text(59, name)
        + emv_field_text(60, city)
        + emv_field_text(62, emv_field_text(5, "***"@));
    assert(pix_body(key, name, city, None) =~= prefix + suffix);
    assert(pix_body(key, name, city, Some(c.display())) =~= prefix + emv_field_text(54, c.display()) + suffix);
    assert(prefix =~= pix_body(key, name, city, Some(c.display())).subrange(0, prefix.len() as int));
}

} // verus!
