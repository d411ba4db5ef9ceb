//! The mathematical model of a directory: its contacts in name order, and
//! what each operation makes of such a listing.

use vstd::prelude::*;
use crate::domain::ContactModel;

verus! {

/// Lexicographic order on text, character by character; a proper prefix comes
/// first. This is the order in which `String` values compare.
pub open spec fn lex_less(a: Seq<char>, b: Seq<char>) -> bool
    decreases a.len(),
{
    if b.len() == 0 {
        false
    } else if a.len() == 0 {
        true
    } else if a[0] != b[0] {
        (a[0] as int) < (b[0] as int)
    } else {
        lex_less(a.drop_first(), b.drop_first())
    }
}

/// A listing is in order when names strictly increase: no name occurs twice.
pub open spec fn sorted_by_name(l: Seq<ContactModel>) -> bool {
    forall|i: int, j: int| #![trigger l[i], l[j]] 0 <= i < j < l.len() ==> lex_less(l[i].name, l[j].name)
}

/// The first position whose name is not less than `name`: where `name` stands
/// in an ordered listing, or would stand.
pub open spec fn rank(l: Seq<ContactModel>, name: Seq<char>) -> int
    decreases l.len(),
{
    if l.len() == 0 || !lex_less(l[0].name, name) {
        0
    } else {
        1 + rank(l.drop_first(), name)
    }
}

/// The contact called `name` in an ordered listing.
pub open spec fn lookup(l: Seq<ContactModel>, name: Seq<char>) -> Option<ContactModel> {
    let r = rank(l, name);
    if r < l.len() && l[r].name == name {
        Some(l[r])
    } else {
        None
    }
}

pub open spec fn contains(l: Seq<ContactModel>, name: Seq<char>) -> bool {
    lookup(l, name) is Some
}

/// The listing with `c` put where its name belongs.
pub open spec fn with_contact(l: Seq<ContactModel>, c: ContactModel) -> Seq<ContactModel> {
    l.insert(rank(l, c.name), c)
}

/// The listing without the contact called `name`, if there is one.
pub open spec fn without_name(l: Seq<ContactModel>, name: Seq<char>) -> Seq<ContactModel> {
    if contains(l, name) {
        l.remove(rank(l, name))
    } else {
        l
    }
}

/// The listing with the email of the contact called `name` replaced, if
/// there is such a contact.
pub open spec fn with_email(l: Seq<ContactModel>, name: Seq<char>, email: Seq<char>) -> Seq<
    ContactModel,
> {
    if contains(l, name) {
        let r = rank(l, name);
        l.update(r, ContactModel { name: l[r].name, email, phone_number: l[r].phone_number })
    } else {
        l
    }
}

/// The listing with the phone number of the contact called `name` replaced,
/// if there is such a contact.
pub open spec fn with_phone(l: Seq<ContactModel>, name: Seq<char>, phone_number: i64) -> Seq<
    ContactModel,
> {
    if contains(l, name) {
        let r = rank(l, name);
        l.update(r, ContactModel { name: l[r].name, email: l[r].email, phone_number })
    } else {
        l
    }
}

/// How many contacts a change by name touches: one if the name is stored,
/// none otherwise.
pub open spec fn rows_named(l: Seq<ContactModel>, name: Seq<char>) -> int {
    if contains(l, name) {
        1
    } else {
        0
    }
}

/// Page `page_num`, counted from zero, of the listing cut into pages of
/// `page_size` contacts: the contacts at positions
/// `page_num * page_size .. page_num * page_size + page_size`, as far as the
/// listing reaches. A page past the end is empty.
pub open spec fn page_window(l: Seq<ContactModel>, page_num: int, page_size: int) -> Seq<
    ContactModel,
> {
    let start = page_num * page_size;
    let end = if start + page_size <= l.len() {
        start + page_size
    } else {
        l.len() as int
    };
    if page_num < 0 || page_size <= 0 || start >= l.len() {
        Seq::empty()
    } else {
        l.subrange(start, end)
    }
}

/// Two texts are equal when their first characters and their rests are.
pub proof fn lemma_eq_by_parts(a: Seq<char>, b: Seq<char>)
    requires
        a.len() > 0,
        b.len() > 0,
    ensures
        (a == b) == (a[0] == b[0] && a.drop_first() == b.drop_first()),
{
    if a[0] == b[0] && a.drop_first() == b.drop_first() {
        assert(a.len() == a.drop_first().len() + 1);
        assert(b.len() == b.drop_first().len() + 1);
        assert forall|i: int| 0 <= i < a.len() implies a[i] == b[i] by {
            if i > 0 {
                assert(a[i] == a.drop_first()[i - 1]);
                assert(b[i] == b.drop_first()[i - 1]);
            }
        }
        assert(a =~= b);
    }
}

/// No text comes before itself.
pub proof fn lemma_lex_irreflexive(a: Seq<char>)
    ensures
        !lex_less(a, a),
    decreases a.len(),
{
    if a.len() > 0 {
        lemma_lex_irreflexive(a.drop_first());
    }
}

/// Of two texts at most one comes before the other.
pub proof fn lemma_lex_asymmetric(a: Seq<char>, b: Seq<char>)
    ensures
        !(lex_less(a, b) && lex_less(b, a)),
    decreases a.len(),
{
    if a.len() > 0 && b.len() > 0 && a[0] == b[0] {
        lemma_lex_asymmetric(a.drop_first(), b.drop_first());
    }
}

/// The order is transitive.
pub proof fn lemma_lex_transitive(a: Seq<char>, b: Seq<char>, c: Seq<char>)
    requires
        lex_less(a, b),
        lex_less(b, c),
    ensures
        lex_less(a, c),
    decreases a.len(),
{
    if a.len() > 0 && b.len() > 0 && c.len() > 0 && a[0] == b[0] && b[0] == c[0] {
        lemma_lex_transitive(a.drop_first(), b.drop_first(), c.drop_first());
    }
}

/// Two different texts are ordered one way or the other.
pub proof fn lemma_lex_total(a: Seq<char>, b: Seq<char>)
    ensures
        a == b || lex_less(a, b) || lex_less(b, a),
    decreases a.len(),
{
    if a.len() == 0 && b.len() == 0 {
        assert(a =~= b);
    } else if a.len() > 0 && b.len() > 0 && a[0] == b[0] {
        lemma_lex_total(a.drop_first(), b.drop_first());
        lemma_eq_by_parts(a, b);
    }
}

/// What `rank` returns: every name before it is less than `name`, and the
/// name at it, if any, is not.
pub proof fn lemma_rank_bounds(l: Seq<ContactModel>, name: Seq<char>)
    ensures
        0 <= rank(l, name) <= l.len(),
        forall|j: int| 0 <= j < rank(l, name) ==> lex_less((#[trigger] l[j]).name, name),
        rank(l, name) < l.len() ==> !lex_less(l[rank(l, name)].name, name),
    decreases l.len(),
{
    if l.len() == 0 || !lex_less(l[0].name, name) {
    } else {
        let rest = l.drop_first();
        lemma_rank_bounds(rest, name);
        assert forall|j: int| 0 <= j < rank(l, name) implies lex_less((#[trigger] l[j]).name, name) by {
            if j > 0 {
                assert(l[j] == rest[j - 1]);
            }
        }
        if rank(l, name) < l.len() {
            assert(l[rank(l, name)] == rest[rank(rest, name)]);
        }
    }
}

/// A position with the two properties of `rank` is the rank.
pub proof fn lemma_rank_is(l: Seq<ContactModel>, name: Seq<char>, i: int)
    requires
        0 <= i <= l.len(),
        forall|j: int| 0 <= j < i ==> lex_less((#[trigger] l[j]).name, name),
        i < l.len() ==> !lex_less(l[i].name, name),
    ensures
        rank(l, name) == i,
    decreases l.len(),
{
    if i == 0 {
    } else {
        let rest = l.drop_first();
        assert(lex_less(l[0].name, name));
        assert forall|j: int| 0 <= j < i - 1 implies lex_less((#[trigger] rest[j]).name, name) by {
            assert(rest[j] == l[j + 1]);
        }
        if i - 1 < rest.len() {
            assert(rest[i - 1] == l[i]);
        }
        lemma_rank_is(rest, name, i - 1);
    }
}

/// In an ordered listing a name stands at its rank and nowhere else.
pub proof fn lemma_name_at_rank(l: Seq<ContactModel>, i: int)
    requires
        sorted_by_name(l),
        0 <= i < l.len(),
    ensures
        rank(l, l[i].name) == i,
        lookup(l, l[i].name) == Some(l[i]),
{
    lemma_lex_irreflexive(l[i].name);
    assert forall|j: int| 0 <= j < i implies lex_less((#[trigger] l[j]).name, l[i].name) by {
        assert(lex_less(l[j].name, l[i].name));
    }
    lemma_rank_is(l, l[i].name, i);
}

/// In an ordered listing `contains` says whether the name occurs.
pub proof fn lemma_contains_iff_listed(l: Seq<ContactModel>, name: Seq<char>)
    requires
        sorted_by_name(l),
    ensures
        contains(l, name) <==> exists|i: int| 0 <= i < l.len() && (#[trigger] l[i]).name == name,
{
    lemma_rank_bounds(l, name);
    if exists|i: int| 0 <= i < l.len() && (#[trigger] l[i]).name == name {
        let i = choose|i: int| 0 <= i < l.len() && (#[trigger] l[i]).name == name;
        lemma_name_at_rank(l, i);
    }
}

/// In an ordered listing, the names from the rank of `name` on are greater
/// than `name`, but for `name` itself at the rank.
pub proof fn lemma_after_rank(l: Seq<ContactModel>, name: Seq<char>, j: int)
    requires
        sorted_by_name(l),
        rank(l, name) <= j < l.len(),
        j > rank(l, name) || !contains(l, name),
    ensures
        lex_less(name, l[j].name),
{
    lemma_rank_bounds(l, name);
    let r = rank(l, name);
    lemma_lex_total(l[r].name, name);
    if j > r {
        assert(lex_less(l[r].name, l[j].name));
        if l[r].name != name {
            lemma_lex_transitive(name, l[r].name, l[j].name);
        }
    }
}

/// Adding a contact under a new name keeps the order, and the contact is then
/// found under its name.
pub proof fn lemma_with_contact(l: Seq<ContactModel>, c: ContactModel)
    requires
        sorted_by_name(l),
        !contains(l, c.name),
    ensures
        sorted_by_name(with_contact(l, c)),
        rank(with_contact(l, c), c.name) == rank(l, c.name),
        lookup(with_contact(l, c), c.name) == Some(c),
        with_contact(l, c).len() == l.len() + 1,
{
    let r = rank(l, c.name);
    let m = with_contact(l, c);
    lemma_rank_bounds(l, c.name);
    assert forall|i: int, j: int| #![trigger m[i], m[j]] 0 <= i < j < m.len() implies lex_less(
        m[i].name,
        m[j].name,
    ) by {
        if j < r {
            assert(lex_less(l[i].name, l[j].name));
        } else if j == r {
            assert(lex_less(l[i].name, c.name));
        } else if i < r {
            assert(m[j] == l[j - 1]);
            assert(lex_less(l[i].name, c.name));
            lemma_after_rank(l, c.name, j - 1);
            lemma_lex_transitive(l[i].name, c.name, l[j - 1].name);
        } else if i == r {
            assert(m[j] == l[j - 1]);
            lemma_after_rank(l, c.name, j - 1);
        } else {
            assert(m[i] == l[i - 1]);
            assert(m[j] == l[j - 1]);
            assert(lex_less(l[i - 1].name, l[j - 1].name));
        }
    }
    assert(m[r] == c);
    lemma_name_at_rank(m, r);
}

/// Removing a name keeps the order, and the name is then not found.
pub proof fn lemma_without_name(l: Seq<ContactModel>, name: Seq<char>)
    requires
        sorted_by_name(l),
    ensures
        sorted_by_name(without_name(l, name)),
        !contains(without_name(l, name), name),
        without_name(l, name).len() == l.len() - rows_named(l, name),
{
    if contains(l, name) {
        let r = rank(l, name);
        let m = without_name(l, name);
        lemma_rank_bounds(l, name);
        assert forall|i: int, j: int| #![trigger m[i], m[j]] 0 <= i < j < m.len() implies lex_less(
            m[i].name,
            m[j].name,
        ) by {
            let oi = if i < r { i } else { i + 1 };
            let oj = if j < r { j } else { j + 1 };
            assert(m[i] == l[oi]);
            assert(m[j] == l[oj]);
            assert(lex_less(l[oi].name, l[oj].name));
        }
        assert forall|j: int| 0 <= j < r implies lex_less((#[trigger] m[j]).name, name) by {
            assert(m[j] == l[j]);
        }
        if r < m.len() {
            assert(m[r] == l[r + 1]);
            lemma_after_rank(l, name, r + 1);
            lemma_lex_asymmetric(name, m[r].name);
            lemma_lex_irreflexive(name);
        }
        lemma_rank_is(m, name, r);
    }
}

/// Replacing the email or the phone number of a stored contact keeps the
/// order and every rank, because no name changes.
pub proof fn lemma_same_names(l: Seq<ContactModel>, m: Seq<ContactModel>, name: Seq<char>)
    requires
        l.len() == m.len(),
        forall|i: int| 0 <= i < l.len() ==> (#[trigger] l[i]).name == (#[trigger] m[i]).name,
    ensures
        rank(m, name) == rank(l, name),
        sorted_by_name(l) ==> sorted_by_name(m),
{
    lemma_rank_bounds(l, name);
    let r = rank(l, name);
    assert forall|j: int| 0 <= j < r implies lex_less((#[trigger] m[j]).name, name) by {
        assert(l[j].name == m[j].name);
    }
    if r < l.len() {
        assert(l[r].name == m[r].name);
    }
    lemma_rank_is(m, name, r);
    if sorted_by_name(l) {
        assert forall|i: int, j: int| #![trigger m[i], m[j]] 0 <= i < j < m.len() implies lex_less(
            m[i].name,
            m[j].name,
        ) by {
            assert(l[i].name == m[i].name);
            assert(l[j].name == m[j].name);
            assert(lex_less(l[i].name, l[j].name));
        }
    }
}

/// After an email is replaced, the contact is found with the new email and
/// its old phone number.
pub proof fn lemma_with_email(l: Seq<ContactModel>, name: Seq<char>, email: Seq<char>)
    requires
        sorted_by_name(l),
    ensures
        sorted_by_name(with_email(l, name, email)),
        with_email(l, name, email).len() == l.len(),
        lookup(l, name) matches Some(c) ==> lookup(with_email(l, name, email), name) == Some(
            ContactModel { name, email, phone_number: c.phone_number },
        ),
        lookup(l, name) is None ==> lookup(with_email(l, name, email), name) is None,
{
    lemma_rank_bounds(l, name);
    lemma_same_names(l, with_email(l, name, email), name);
}

/// After a phone number is replaced, the contact is found with the new
/// number and its old email.
pub proof fn lemma_with_phone(l: Seq<ContactModel>, name: Seq<char>, phone_number: i64)
    requires
        sorted_by_name(l),
    ensures
        sorted_by_name(with_phone(l, name, phone_number)),
        with_phone(l, name, phone_number).len() == l.len(),
        lookup(l, name) matches Some(c) ==> lookup(with_phone(l, name, phone_number), name)
            == Some(ContactModel { name, email: c.email, phone_number }),
        lookup(l, name) is None ==> lookup(with_phone(l, name, phone_number), name) is None,
{
    lemma_rank_bounds(l, name);
    lemma_same_names(l, with_phone(l, name, phone_number), name);
}

/// Adding a contact leaves every other name as it was.
pub proof fn lemma_with_contact_others(l: Seq<ContactModel>, c: ContactModel, other: Seq<char>)
    requires
        sorted_by_name(l),
        !contains(l, c.name),
        other != c.name,
    ensures
        lookup(with_contact(l, c), other) == lookup(l, other),
{
    let r = rank(l, c.name);
    let q = rank(l, other);
    let m = with_contact(l, c);
    lemma_rank_bounds(l, c.name);
    lemma_rank_bounds(l, other);
    lemma_lex_total(other, c.name);
    lemma_lex_asymmetric(other, c.name);
    if lex_less(other, c.name) {
        if q > r {
            lemma_lex_transitive(l[r].name, other, c.name);
        }
        assert forall|j: int| 0 <= j < q implies lex_less((#[trigger] m[j]).name, other) by {
            assert(m[j] == l[j]);
        }
        lemma_rank_is(m, other, q);
        if q == r && r < l.len() && l[r].name == other {
            assert(lex_less(l[r].name, c.name));
        }
    } else {
        if q < r {
            assert(lex_less(l[q].name, c.name));
            lemma_lex_transitive(l[q].name, c.name, other);
        }
        assert forall|j: int| 0 <= j < q + 1 implies lex_less((#[trigger] m[j]).name, other) by {
            if j < r {
                assert(m[j] == l[j]);
                assert(lex_less(l[j].name, c.name));
                lemma_lex_transitive(l[j].name, c.name, other);
            } else if j > r {
                assert(m[j] == l[j - 1]);
            }
        }
        if q + 1 < m.len() {
            assert(m[q + 1] == l[q]);
        }
        lemma_rank_is(m, other, q + 1);
    }
}

/// Removing a name leaves every other name as it was.
pub proof fn lemma_without_name_others(l: Seq<ContactModel>, name: Seq<char>, other: Seq<char>)
    requires
        sorted_by_name(l),
        other != name,
    ensures
        lookup(without_name(l, name), other) == lookup(l, other),
{
    if contains(l, name) {
        let r = rank(l, name);
        let q = rank(l, other);
        let m = without_name(l, name);
        lemma_rank_bounds(l, name);
        lemma_rank_bounds(l, other);
        lemma_lex_total(other, name);
        lemma_lex_asymmetric(other, name);
        if lex_less(other, name) {
            assert(q <= r);
            assert forall|j: int| 0 <= j < q implies lex_less((#[trigger] m[j]).name, other) by {
                assert(m[j] == l[j]);
            }
            if q < m.len() {
                if q < r {
                    assert(m[q] == l[q]);
                } else {
                    assert(m[q] == l[r + 1]);
                    lemma_after_rank(l, name, r + 1);
                    lemma_lex_transitive(other, name, l[r + 1].name);
                    lemma_lex_asymmetric(other, l[r + 1].name);
                    lemma_lex_irreflexive(other);
                }
            }
            lemma_rank_is(m, other, q);
        } else {
            if q <= r {
                if q < r {
                    assert(lex_less(l[q].name, l[r].name));
                    lemma_lex_transitive(l[q].name, name, other);
                }
            }
            assert(q > r);
            assert forall|j: int| 0 <= j < q - 1 implies lex_less((#[trigger] m[j]).name, other) by {
                if j < r {
                    assert(m[j] == l[j]);
                } else {
                    assert(m[j] == l[j + 1]);
                }
            }
            if q - 1 < m.len() {
                assert(m[q - 1] == l[q]);
            }
            lemma_rank_is(m, other, q - 1);
        }
    }
}

/// Replacing an email leaves every other name as it was.
pub proof fn lemma_with_email_others(
    l: Seq<ContactModel>,
    name: Seq<char>,
    email: Seq<char>,
    other: Seq<char>,
)
    requires
        other != name,
    ensures
        lookup(with_email(l, name, email), other) == lookup(l, other),
{
    lemma_rank_bounds(l, name);
    lemma_rank_bounds(l, other);
    let m = with_email(l, name, email);
    lemma_same_names(l, m, other);
    let q = rank(l, other);
    if q < l.len() {
        assert(m[q].name == l[q].name);
    }
}

/// Replacing a phone number leaves every other name as it was.
pub proof fn lemma_with_phone_others(
    l: Seq<ContactModel>,
    name: Seq<char>,
    phone_number: i64,
    other: Seq<char>,
)
    requires
        other != name,
    ensures
        lookup(with_phone(l, name, phone_number), other) == lookup(l, other),
{
    lemma_rank_bounds(l, name);
    lemma_rank_bounds(l, other);
    let m = with_phone(l, name, phone_number);
    lemma_same_names(l, m, other);
    let q = rank(l, other);
    if q < l.len() {
        assert(m[q].name == l[q].name);
    }
}

} // verus!
