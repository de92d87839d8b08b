use vstd::prelude::*;
use vstd::string::StringExecFns;

verus! {

/// The authenticated user's record, as fetched after login.
#[derive(Debug, Clone, PartialEq, Eq)]
pub struct UserProfile {
    pub id: i64,
    pub user_type: String,
    pub email: String,
    pub name: String,
    pub mobile: String,
    pub laston: String,
    pub created_at: String,
    pub updated_at: String,
    pub expire_at: String,
}

/// The JSON string literal (quoted and escaped) that serde_json writes for a
/// string.
pub uninterp spec fn json_text_of(s: Seq<char>) -> Seq<char>;

/// Relies on serde_json::to_string on a `str`: the JSON string literal for
/// it. Serialising a `str` has no failing case.
#[verifier::external_body]
fn json_string(s: &str) -> (r: String)
    ensures
        r@ == json_text_of(s@),
{
    serde_json::to_string(s).unwrap_or_default()
}

pub open spec fn digit(d: nat) -> char {
    if d == 0 {
        '0'
    } else if d == 1 {
        '1'
    } else if d == 2 {
        '2'
    } else if d == 3 {
        '3'
    } else if d == 4 {
        '4'
    } else if d == 5 {
        '5'
    } else if d == 6 {
        '6'
    } else if d == 7 {
        '7'
    } else if d == 8 {
        '8'
    } else {
        '9'
    }
}

/// Decimal digits of `n`, most significant first, without leading zeros.
pub open spec fn decimal(n: nat) -> Seq<char>
    decreases n,
{
    if n < 10 {
        seq![digit(n)]
    } else {
        decimal(n / 10).push(digit(n % 10))
    }
}

/// An integer as JSON writes it.
pub open spec fn int_text(n: i64) -> Seq<char> {
    if n < 0 {
        seq!['-'] + decimal((-n) as nat)
    } else {
        decimal(n as nat)
    }
}

/// The persisted record: a JSON object with the fields in this order.
pub open spec fn profile_record_text(p: UserProfile) -> Seq<char> {
    "{\"id\":"@ + int_text(p.id) + ",\"type\":"@ + json_text_of(p.user_type@) + ",\"email\":"@
        + json_text_of(p.email@) + ",\"name\":"@ + json_text_of(p.name@) + ",\"mobile\":"@
        + json_text_of(p.mobile@) + ",\"laston\":"@ + json_text_of(p.laston@)
        + ",\"created_at\":"@ + json_text_of(p.created_at@) + ",\"updated_at\":"@
        + json_text_of(p.updated_at@) + ",\"expire_at\":"@ + json_text_of(p.expire_at@) + "}"@
}

fn digit_text(d: u64) -> (r: &'static str)
    requires
        d < 10,
    ensures
        r@ == seq![digit(d as nat)],
{
    proof {
        reveal_strlit("0");
        reveal_strlit("1");
        reveal_strlit("2");
        reveal_strlit("3");
        reveal_strlit("4");
        reveal_strlit("5");
        reveal_strlit("6");
        reveal_strlit("7");
        reveal_strlit("8");
        reveal_strlit("9");
    }
    if d == 0 {
        "0"
    } else if d == 1 {
        "1"
    } else if d == 2 {
        "2"
    } else if d == 3 {
        "3"
    } else if d == 4 {
        "4"
    } else if d == 5 {
        "5"
    } else if d == 6 {
        "6"
    } else if d == 7 {
        "7"
    } else if d == 8 {
        "8"
    } else {
        "9"
    }
}

fn append_decimal(out: &mut String, n: u64)
    ensures
        final(out)@ == old(out)@ + decimal(n as nat),
    decreases n,
{
    if n >= 10 {
        append_decimal(out, n / 10);
    }
    out.append(digit_text(n % 10));
    proof {
        if n >= 10 {
            assert(old(out)@ + decimal(n as nat) =~= old(out)@ + decimal((n / 10) as nat) + seq![
                digit((n % 10) as nat),
            ]);
        } else {
            assert(n % 10 == n);
        }
    }
}

fn append_int(out: &mut String, n: i64)
    ensures
        final(out)@ == old(out)@ + int_text(n),
{
    if n < 0 {
        proof {
            reveal_strlit("-");
        }
        out.append("-");
        let m: u64 = (0i128 - n as i128) as u64;
        append_decimal(out, m);
        assert(final(out)@ =~= old(out)@ + int_text(n));
    } else {
        append_decimal(out, n as u64);
    }
}

fn append_field(out: &mut String, key: &str, value: &String)
    ensures
        final(out)@ == old(out)@ + key@ + json_text_of(value@),
{
    out.append(key);
    let text = json_string(value.as_str());
    out.append(text.as_str());
    assert(final(out)@ =~= old(out)@ + key@ + json_text_of(value@));
}

/// The JSON object under which a profile is persisted.
pub fn profile_record(p: &UserProfile) -> (r: String)
    ensures
        r@ == profile_record_text(*p),
{
    proof {
        reveal_strlit("{\"id\":");
        reveal_strlit("}");
    }
    let mut out = String::from_str("{\"id\":");
    append_int(&mut out, p.id);
    append_field(&mut out, ",\"type\":", &p.user_type);
    append_field(&mut out, ",\"email\":", &p.email);
    append_field(&mut out, ",\"name\":", &p.name);
    append_field(&mut out, ",\"mobile\":", &p.mobile);
    append_field(&mut out, ",\"laston\":", &p.laston);
    append_field(&mut out, ",\"created_at\":", &p.created_at);
    append_field(&mut out, ",\"updated_at\":", &p.updated_at);
    append_field(&mut out, ",\"expire_at\":", &p.expire_at);
    out.append("}");
    assert(out@ =~= profile_record_text(*p));
    out
}

} // verus!
