use vstd::prelude::*;

verus! {

/// The character of a decimal digit `d < 10`.
pub open spec fn digit_char(d: nat) -> char {
    seq!['0', '1', '2', '3', '4', '5', '6', '7', '8', '9'][d as int]
}

/// The decimal digits of `n`, without leading zeros.
pub open spec fn digits_of(n: nat) -> Seq<char>
    decreases n,
{
    if n < 10 {
        seq![digit_char(n)]
    } else {
        digits_of(n / 10).push(digit_char(n % 10))
    }
}

/// The decimal form of `n`, with a leading `-` when negative.
pub open spec fn decimal(n: int) -> Seq<char> {
    if n < 0 {
        seq!['-'] + digits_of((-n) as nat)
    } else {
        digits_of(n as nat)
    }
}

/// Relies on `i128`'s `Display` (through `ToString`), which writes an integer
/// in decimal.
#[verifier::external_body]
pub(crate) fn decimal_text(n: i128) -> (r: String)
    ensures
        r@ == decimal(n as int),
{
    n.to_string()
}

/// A copy of a list of texts.
pub fn copy_strings(v: &Vec<String>) -> (r: Vec<String>)
    ensures
        r@ == v@,
{
    let mut out: Vec<String> = Vec::new();
    let mut i: usize = 0;
    while i < v.len()
        invariant
            i <= v@.len(),
            out@ == v@.subrange(0, i as int),
        decreases v@.len() - i,
    {
        out.push(v[i].clone());
        i = i + 1;
        assert(out@ =~= v@.subrange(0, i as int));
    }
    assert(v@.subrange(0, v@.len() as int) =~= v@);
    out
}

/// The storage key of a file uploaded at `timestamp` (milliseconds since the
/// epoch): `uploads/<timestamp>-<filename>`.
pub fn upload_key(timestamp: i64, filename: &str) -> (r: String)
    ensures
        r@ == "uploads/"@ + decimal(timestamp as int) + "-"@ + filename@,
{
    let mut key = String::from_str("uploads/");
    let stamp = decimal_text(timestamp as i128);
    key.append(stamp.as_str());
    key.append("-");
    key.append(filename);
    key
}

/// The storage endpoint of an account: `https://<account>.r2.cloudflarestorage.com`.
pub fn storage_endpoint(account_id: &str) -> (r: String)
    ensures
        r@ == "https://"@ + account_id@ + ".r2.cloudflarestorage.com"@,
{
    let mut url = String::from_str("https://");
    url.append(account_id);
    url.append(".r2.cloudflarestorage.com");
    url
}

/// The public address of an object: `https://<bucket>.r2.cloudflarestorage.com/<key>`.
pub fn object_url(bucket: &str, key: &str) -> (r: String)
    ensures
        r@ == "https://"@ + bucket@ + ".r2.cloudflarestorage.com/"@ + key@,
{
    let mut url = String::from_str("https://");
    url.append(bucket);
    url.append(".r2.cloudflarestorage.com/");
    url.append(key);
    url
}

/// The scheme word that opens an `Authorization` header carrying a token.
pub open spec fn bearer_prefix() -> Seq<char> {
    "Bearer "@
}

/// The token of an `Authorization` header written `Bearer <token>`; `None`
/// for a header of any other form.
pub fn bearer_token(header: &str) -> (r: Option<String>)
    ensures
        header@.len() >= 7 && header@.subrange(0, 7) == bearer_prefix() ==> (r matches Some(t)
            && t@ == header@.subrange(7, header@.len() as int)),
        !(header@.len() >= 7 && header@.subrange(0, 7) == bearer_prefix()) ==> r is None,
{
    let prefix = "Bearer ";
    proof {
        reveal_strlit("Bearer ");
    }
    let n = header.unicode_len();
    if n < 7 {
        return None;
    }
    let mut i: usize = 0;
    while i < 7
        invariant
            i <= 7 <= n,
            n == header@.len(),
            prefix@ == bearer_prefix(),
            prefix@.len() == 7,
            forall|j: int| 0 <= j < i ==> header@[j] == prefix@[j],
        decreases 7 - i,
    {
        if header.get_char(i) != prefix.get_char(i) {
            assert(header@.subrange(0, 7)[i as int] != bearer_prefix()[i as int]);
            return None;
        }
        i = i + 1;
    }
    assert(header@.subrange(0, 7) =~= bearer_prefix());
    let rest = header.substring_char(7, n);
    Some(String::from_str(rest))
}

} // verus!
