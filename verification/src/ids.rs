use vstd::prelude::*;

verus! {

/// A lowercase hexadecimal digit.
pub open spec fn is_lower_hex(c: char) -> bool {
    let u = c as u32;
    (48 <= u <= 57) || (97 <= u <= 102)
}

/// The hyphenated text of a version-4 UUID, as `Uuid::to_string` writes it:
/// 36 characters, hyphens at 8, 13, 18 and 23, lowercase hex elsewhere,
/// the version digit `4` at 14 and a variant digit among `8 9 a b` at 19.
pub open spec fn is_uuid_v4_text(s: Seq<char>) -> bool {
    &&& s.len() == 36
    &&& forall|i: int|
        0 <= i < 36 ==> if i == 8 || i == 13 || i == 18 || i == 23 {
            #[trigger] s[i] == '-'
        } else {
            is_lower_hex(s[i])
        }
    &&& s[14] == '4'
    &&& (s[19] == '8' || s[19] == '9' || s[19] == 'a' || s[19] == 'b')
}

/// A fresh random identifier: `uuid::Uuid::new_v4().to_string()`.
/// `new_v4` masks a random `u128` to set the version nibble to 4 and the
/// variant bits to `10`; `to_string` writes the lowercase hyphenated form.
/// Which identifier comes back is left open: it is random.
#[verifier::external_body]
pub(crate) fn new_uuid_v4_text() -> (r: String)
    ensures
        is_uuid_v4_text(r@),
{
    uuid::Uuid::new_v4().to_string()
}

} // verus!
