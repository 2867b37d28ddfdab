use vstd::prelude::*;
use vstd::string::*;

use crate::text::{json_string, json_string_literal, strings_view};

verus! {

/// The id of the OAuth application whose grant an account keeps.
pub open spec fn kept_app_id() -> Seq<char> {
    "29459355"@
}

/// The positions of the OAuth applications whose grants are revoked: all
/// but those with the kept id, in order.
pub open spec fn revoked_positions(app_ids: Seq<Seq<char>>) -> Seq<usize>
    decreases app_ids.len(),
{
    if app_ids.len() == 0 {
        Seq::empty()
    } else if app_ids.last() == kept_app_id() {
        revoked_positions(app_ids.drop_last())
    } else {
        revoked_positions(app_ids.drop_last()).push((app_ids.len() - 1) as usize)
    }
}

/// The positions, in `app_ids`, of the applications whose grants are to be
/// revoked: every application but the kept one.
pub fn apps_to_revoke(app_ids: &Vec<String>) -> (positions: Vec<usize>)
    ensures
        positions@ == revoked_positions(strings_view(app_ids@)),
{
    let kept = String::from_str("29459355");
    let mut positions: Vec<usize> = Vec::new();
    let n = app_ids.len();
    let mut i: usize = 0;
    while i < n
        invariant
            n == app_ids@.len(),
            i <= n,
            kept@ == kept_app_id(),
            positions@ == revoked_positions(strings_view(app_ids@).take(i as int)),
        decreases n - i,
    {
        let ghost ids = strings_view(app_ids@);
        assert(ids.take(i + 1).drop_last() =~= ids.take(i as int));
        assert(ids.take(i + 1).last() == app_ids@[i as int]@);
        if app_ids[i] != kept {
            positions.push(i);
        }
        i = i + 1;
    }
    assert(strings_view(app_ids@).take(n as int) =~= strings_view(app_ids@));
    positions
}

/// Whether the account's contact details are as expected: exactly one
/// address, the account's own, and no phone number.
pub fn contacts_as_expected(emails: &Vec<String>, phone_count: usize, user_email: &str) -> (ok: bool)
    ensures
        ok == (emails@.len() == 1 && emails@[0]@ == user_email@ && phone_count == 0),
{
    if emails.len() != 1 || phone_count != 0 {
        return false;
    }
    let expected = String::from_str(user_email);
    emails[0] == expected
}

/// The environment file that an account's new credentials are kept in:
/// `USER_PASSWORD=...`, `EMAIL_PASS=...` and `AUTH_TOKENS=` followed by the
/// cookies as a JSON string, one per line.
pub fn account_env_file(user_password: &str, email_password: &str, cookies: &str) -> (text: String)
    ensures
        text@ == "USER_PASSWORD="@ + user_password@ + "\n"@ + "EMAIL_PASS="@ + email_password@ + "\n"@
            + "AUTH_TOKENS="@ + json_string_literal(cookies@) + "\n"@,
{
    let mut text = String::from_str("USER_PASSWORD=");
    text.append(user_password);
    text.append("\n");
    text.append("EMAIL_PASS=");
    text.append(email_password);
    text.append("\n");
    text.append("AUTH_TOKENS=");
    let lit = json_string(cookies);
    text.append(lit.as_str());
    text.append("\n");
    text
}

} // verus!

verus! {

/// The grants revoked are exactly those of the applications whose id is not
/// `29459355`: each position appears at most once, in increasing order, and
/// a position is listed exactly when its id differs from the kept one (for
/// every list a `Vec` can hold).
pub proof fn lemma_revoked_exactly_others(app_ids: Seq<Seq<char>>)
    requires
        app_ids.len() <= usize::MAX,
    ensures
        forall|j: int| 0 <= j < revoked_positions(app_ids).len() ==> #[trigger] revoked_positions(app_ids)[j]
            < app_ids.len(),
        forall|j: int, k: int|
            0 <= j < k < revoked_positions(app_ids).len() ==> #[trigger] revoked_positions(app_ids)[j]
                < #[trigger] revoked_positions(app_ids)[k],
        forall|i: int|
            0 <= i < app_ids.len() ==> (revoked_positions(app_ids).contains(i as usize) <==> #[trigger] app_ids[i]
                != "29459355"@),
    decreases app_ids.len(),
{
    if app_ids.len() > 0 {
        let rest = app_ids.drop_last();
        lemma_revoked_exactly_others(rest);
        let rp = revoked_positions(rest);
        let n = app_ids.len() - 1;
        assert forall|i: int| 0 <= i < n implies #[trigger] app_ids[i] == rest[i] by {}
        if app_ids.last() == "29459355"@ {
            assert(revoked_positions(app_ids) == rp);
            assert(!rp.contains(n as usize)) by {
                if rp.contains(n as usize) {
                    let j = choose|j: int| 0 <= j < rp.len() && rp[j] == n as usize;
                    assert(rp[j] < rest.len());
                }
            }
        } else {
            let full = rp.push(n as usize);
            assert(revoked_positions(app_ids) == full);
            assert(full.contains(n as usize)) by {
                assert(full[rp.len() as int] == n as usize);
            }
            assert forall|i: int| 0 <= i < app_ids.len() implies (full.contains(i as usize)
                <==> #[trigger] app_ids[i] != "29459355"@) by {
                if i < n {
                    if rp.contains(i as usize) {
                        let j = choose|j: int| 0 <= j < rp.len() && rp[j] == i as usize;
                        assert(full[j] == i as usize);
                    }
                    if full.contains(i as usize) {
                        let j = choose|j: int| 0 <= j < full.len() && full[j] == i as usize;
                        if j < rp.len() {
                            assert(rp[j] == i as usize);
                        }
                    }
                }
            }
        }
    }
}

} // verus!
