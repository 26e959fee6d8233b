use vstd::prelude::*;

use crate::error::{fails_not_found, fails_validation, join_text, validation_error, DomainError};
use crate::location::Location;
use crate::platform::{decimal_text, id_text, new_id, u64_text, uuid_text, uuid_version};
use crate::text::{is_blank, is_blank_spec};
use crate::user::UserId;

verus! {

/// Identifier of a customer profile.
#[derive(Debug, Clone, Copy, PartialEq, Eq, Hash, Structural)]
pub struct CustomerId(pub u128);

impl CustomerId {
    /// A fresh time-ordered identifier.
    pub fn new() -> (id: CustomerId)
        ensures
            id.0 != 0,
            uuid_version(id.0) == 7,
    {
        CustomerId(new_id())
    }
}

impl Default for CustomerId {
    fn default() -> (id: CustomerId)
        ensures
            id.0 != 0,
            uuid_version(id.0) == 7,
    {
        CustomerId::new()
    }
}

/// An entry of a customer's address book.
#[derive(Debug, Clone, PartialEq)]
pub struct SavedAddress {
    pub id: u128,
    pub label: String,
    pub location: Location,
    pub full_address: String,
    pub is_default: bool,
}

impl SavedAddress {
    /// A non-default address with a fresh id; the label must not be blank.
    pub fn new(label: &str, location: Location, full_address: &str) -> (r: Result<
        SavedAddress,
        DomainError,
    >)
        ensures
            is_blank_spec(label@) ==> fails_validation(r, "address label is required"@),
            !is_blank_spec(label@) ==> (r matches Ok(a) && a.id != 0 && uuid_version(a.id) == 7
                && a.label@ == label@ && a.location == location && a.full_address@
                == full_address@ && !a.is_default),
    {
        if is_blank(label) {
            return Err(validation_error("address label is required"));
        }
        Ok(
            SavedAddress {
                id: new_id(),
                label: label.to_owned(),
                location,
                full_address: full_address.to_owned(),
                is_default: false,
            },
        )
    }
}

/// A customer's profile: company data, address book and loyalty points.
#[derive(Debug, Clone, PartialEq)]
pub struct CustomerProfile {
    pub id: CustomerId,
    pub user_id: UserId,
    pub company_name: Option<String>,
    pub tax_id: Option<String>,
    pub addresses: Vec<SavedAddress>,
    pub loyalty_points: u64,
    pub created_at: i64,
}

/// `a` with its default flag set to `flag`.
pub open spec fn with_default_flag(a: SavedAddress, flag: bool) -> SavedAddress {
    SavedAddress { is_default: flag, ..a }
}

/// The address book after `add_address`: the first address becomes the default.
pub open spec fn added_address(book: Seq<SavedAddress>, address: SavedAddress) -> Seq<SavedAddress> {
    if book.len() == 0 {
        book.push(with_default_flag(address, true))
    } else {
        book.push(address)
    }
}

/// Some address of the book has identifier `id`.
pub open spec fn has_address(book: Seq<SavedAddress>, id: u128) -> bool {
    exists|i: int| 0 <= i < book.len() && #[trigger] book[i].id == id
}

/// The address book with exactly the addresses identified by `id` flagged as default.
pub open spec fn defaulted_to(book: Seq<SavedAddress>, id: u128) -> Seq<SavedAddress> {
    Seq::new(book.len(), |i: int| with_default_flag(book[i], book[i].id == id))
}

/// The address book without the addresses identified by `id`.
pub open spec fn without_address(book: Seq<SavedAddress>, id: u128) -> Seq<SavedAddress> {
    book.filter(not_identified_by(id))
}

/// The predicate "is not the address identified by `id`".
pub open spec fn not_identified_by(id: u128) -> spec_fn(SavedAddress) -> bool {
    |a: SavedAddress| a.id != id
}

/// Some address of the book is flagged as default.
pub open spec fn has_default(book: Seq<SavedAddress>) -> bool {
    exists|i: int| 0 <= i < book.len() && #[trigger] book[i].is_default
}

/// If no address is the default, the first one (if any) becomes it.
pub open spec fn promoted(book: Seq<SavedAddress>) -> Seq<SavedAddress> {
    if book.len() > 0 && !has_default(book) {
        book.update(0, with_default_flag(book[0], true))
    } else {
        book
    }
}

/// The position of the first default address, if any.
pub open spec fn first_default(book: Seq<SavedAddress>) -> Option<int> {
    if has_default(book) {
        Some(
            choose|i: int|
                0 <= i < book.len() && book[i].is_default && forall|j: int|
                    0 <= j < i ==> !(#[trigger] book[j].is_default),
        )
    } else {
        None
    }
}

proof fn lemma_first_default_exists(book: Seq<SavedAddress>)
    requires
        has_default(book),
    ensures
        exists|i: int|
            0 <= i < book.len() && book[i].is_default && forall|j: int|
                0 <= j < i ==> !(#[trigger] book[j].is_default),
    decreases book.len(),
{
    if book[0].is_default {
        assert(forall|j: int| 0 <= j < 0 ==> !(#[trigger] book[j].is_default));
    } else {
        let rest = book.drop_first();
        let k = choose|k: int| 0 <= k < book.len() && #[trigger] book[k].is_default;
        assert(rest[k - 1].is_default);
        lemma_first_default_exists(rest);
        let i = choose|i: int|
            0 <= i < rest.len() && rest[i].is_default && forall|j: int|
                0 <= j < i ==> !(#[trigger] rest[j].is_default);
        assert(book[i + 1].is_default);
        assert forall|j: int| 0 <= j < i + 1 implies !(#[trigger] book[j].is_default) by {
            if j > 0 {
                assert(book[j] == rest[j - 1]);
            }
        }
    }
}

/// After `set_default_address(id)` succeeds, the default address found by
/// `default_address` is one identified by `id`, and an address is flagged as
/// default exactly when it is identified by `id`.
pub proof fn law_set_default_then_lookup(book: Seq<SavedAddress>, id: u128)
    requires
        has_address(book, id),
    ensures
        first_default(defaulted_to(book, id)) matches Some(k) && defaulted_to(book, id)[k].id == id,
        forall|i: int|
            0 <= i < book.len() ==> (#[trigger] defaulted_to(book, id)[i]).is_default == (book[i].id
                == id),
{
    let d = defaulted_to(book, id);
    let i = choose|i: int| 0 <= i < book.len() && #[trigger] book[i].id == id;
    assert(d[i].is_default);
    assert(has_default(d));
    lemma_first_default_exists(d);
}

/// The first address added to an empty book becomes its default address.
pub proof fn law_first_address_is_default(address: SavedAddress)
    ensures
        first_default(added_address(Seq::empty(), address)) == Some(0int),
        added_address(Seq::empty(), address)[0].id == address.id,
{
    let b = added_address(Seq::<SavedAddress>::empty(), address);
    assert(b[0].is_default);
    assert(has_default(b));
    lemma_first_default_exists(b);
}

/// Removing an address removes every address with that id, and a book that
/// is not empty afterwards still has a default address.
pub proof fn law_removal_keeps_a_default(book: Seq<SavedAddress>, id: u128)
    ensures
        !has_address(promoted(without_address(book, id)), id),
        promoted(without_address(book, id)).len() > 0 ==> has_default(
            promoted(without_address(book, id)),
        ),
{
    broadcast use vstd::seq_lib::group_filter_ensures;

    let kept = without_address(book, id);
    let p = promoted(kept);
    assert forall|i: int| 0 <= i < p.len() implies #[trigger] p[i].id != id by {
        assert(not_identified_by(id)(kept[i]));
        assert(p[i].id == kept[i].id);
    }
    if p.len() > 0 && !has_default(kept) {
        assert(p[0].is_default);
    }
}

/// No two addresses of the book are flagged as default.
pub open spec fn at_most_one_default(book: Seq<SavedAddress>) -> bool {
    forall|i: int, j: int| 0 <= i < j < book.len() ==> !(#[trigger] book[i].is_default && #[trigger] book[j].is_default)
}

/// Exactly one address of the book is flagged as default.
pub open spec fn exactly_one_default(book: Seq<SavedAddress>) -> bool {
    has_default(book) && at_most_one_default(book)
}

proof fn lemma_filter_keeps_at_most_one_default(book: Seq<SavedAddress>, id: u128)
    requires
        at_most_one_default(book),
    ensures
        at_most_one_default(without_address(book, id)),
    decreases book.len(),
{
    broadcast use vstd::seq_lib::group_filter_ensures;

    reveal(Seq::filter);
    if book.len() > 0 {
        let t = book.drop_last();
        assert(at_most_one_default(t)) by {
            assert forall|i: int, j: int| 0 <= i < j < t.len() implies !(#[trigger] t[i].is_default
                && #[trigger] t[j].is_default) by {
                assert(t[i] == book[i]);
                assert(t[j] == book[j]);
            }
        }
        lemma_filter_keeps_at_most_one_default(t, id);
        let ft = without_address(t, id);
        let f = without_address(book, id);
        if not_identified_by(id)(book.last()) {
            assert(f == ft.push(book.last()));
            if book.last().is_default {
                assert forall|i: int| 0 <= i < ft.len() implies !(#[trigger] ft[i].is_default) by {
                    t.lemma_filter_contains_rev(not_identified_by(id), ft[i]);
                    assert(ft.contains(ft[i]));
                    let k = choose|k: int| 0 <= k < t.len() && t[k] == ft[i];
                    assert(book[k] == t[k]);
                    assert(!(book[k].is_default && book[book.len() - 1].is_default));
                }
            }
            assert forall|i: int, j: int| 0 <= i < j < f.len() implies !(#[trigger] f[i].is_default
                && #[trigger] f[j].is_default) by {
                if j < ft.len() {
                    assert(f[i] == ft[i]);
                    assert(f[j] == ft[j]);
                } else {
                    assert(f[i] == ft[i]);
                }
            }
        } else {
            assert(f == ft);
        }
    }
}

/// Removing an address from a book with at most one default (for example,
/// one that has exactly one) leaves a book that, when not empty, has exactly
/// one default: the old default when it was kept, else the first address.
pub proof fn law_removal_keeps_exactly_one_default(book: Seq<SavedAddress>, id: u128)
    requires
        at_most_one_default(book),
    ensures
        promoted(without_address(book, id)).len() > 0 ==> exactly_one_default(
            promoted(without_address(book, id)),
        ),
        has_default(without_address(book, id)) ==> promoted(without_address(book, id))
            == without_address(book, id),
{
    lemma_filter_keeps_at_most_one_default(book, id);
    let kept = without_address(book, id);
    let p = promoted(kept);
    if kept.len() > 0 && !has_default(kept) {
        assert(p[0].is_default);
        assert forall|i: int, j: int| 0 <= i < j < p.len() implies !(#[trigger] p[i].is_default
            && #[trigger] p[j].is_default) by {
            assert(p[j] == kept[j]);
            assert(!kept[j].is_default);
        }
    }
}

/// Removing an address keeps the other addresses in their order. When the
/// kept addresses still include a default, they are the new book unchanged;
/// when they include none, the first kept address becomes the default and the
/// rest are unchanged.
pub proof fn law_removal_promotes_first(book: Seq<SavedAddress>, id: u128)
    ensures
        promoted(without_address(book, id)).len() == without_address(book, id).len(),
        has_default(without_address(book, id)) ==> promoted(without_address(book, id))
            == without_address(book, id),
        without_address(book, id).len() > 0 && !has_default(without_address(book, id)) ==> {
            &&& promoted(without_address(book, id))[0] == with_default_flag(
                without_address(book, id)[0],
                true,
            )
            &&& promoted(without_address(book, id))[0].is_default
            &&& forall|i: int|
                0 < i < without_address(book, id).len() ==> #[trigger] promoted(
                    without_address(book, id),
                )[i] == without_address(book, id)[i]
        },
{
}

impl CustomerProfile {
    /// An empty profile.
    pub fn create(id: CustomerId, user_id: UserId, now: i64) -> (p: CustomerProfile)
        ensures
            p.id == id,
            p.user_id == user_id,
            p.company_name is None,
            p.tax_id is None,
            p.addresses@ == Seq::<SavedAddress>::empty(),
            p.loyalty_points == 0,
            p.created_at == now,
    {
        CustomerProfile {
            id,
            user_id,
            company_name: None,
            tax_id: None,
            addresses: Vec::new(),
            loyalty_points: 0,
            created_at: now,
        }
    }

    pub fn set_company(&mut self, name: &str, tax_id: &str)
        ensures
            final(self).company_name matches Some(n) && n@ == name@,
            final(self).tax_id matches Some(t) && t@ == tax_id@,
            *final(self) == (CustomerProfile {
                company_name: final(self).company_name,
                tax_id: final(self).tax_id,
                ..*old(self)
            }),
    {
        self.company_name = Some(name.to_owned());
        self.tax_id = Some(tax_id.to_owned());
    }

    /// Appends an address; the first address of the book becomes the default.
    pub fn add_address(&mut self, address: SavedAddress)
        ensures
            final(self).addresses@ == added_address(old(self).addresses@, address),
            *final(self) == (CustomerProfile { addresses: final(self).addresses, ..*old(self) }),
    {
        if self.addresses.len() == 0 {
            let mut addr = address;
            addr.is_default = true;
            self.addresses.push(addr);
        } else {
            self.addresses.push(address);
        }
    }

    /// Makes the address identified by `address_id` the only default one.
    pub fn set_default_address(&mut self, address_id: u128) -> (r: Result<(), DomainError>)
        ensures
            !has_address(old(self).addresses@, address_id) ==> *final(self) == *old(self)
                && fails_not_found(
                r,
                "address "@ + uuid_text(address_id) + " not found in customer profile"@,
            ),
            has_address(old(self).addresses@, address_id) ==> r is Ok && final(self).addresses@
                == defaulted_to(old(self).addresses@, address_id) && *final(self) == (
            CustomerProfile { addresses: final(self).addresses, ..*old(self) }),
    {
        let n = self.addresses.len();
        let mut found = false;
        let mut i: usize = 0;
        while i < n
            invariant
                n == self.addresses@.len(),
                i <= n,
                found == (exists|k: int| 0 <= k < i && #[trigger] self.addresses@[k].id == address_id),
            decreases n - i,
        {
            if self.addresses[i].id == address_id {
                found = true;
            }
            i = i + 1;
        }
        if !found {
            let m = join_text("address ", id_text(address_id).as_str()).concat(
                " not found in customer profile",
            );
            return Err(DomainError::NotFound(m));
        }
        let ghost before = self.addresses@;
        let mut j: usize = 0;
        while j < n
            invariant
                n == self.addresses@.len(),
                n == before.len(),
                j <= n,
                before == old(self).addresses@,
                *self == (CustomerProfile { addresses: self.addresses, ..*old(self) }),
                forall|k: int|
                    0 <= k < j ==> #[trigger] self.addresses@[k] == with_default_flag(
                        before[k],
                        before[k].id == address_id,
                    ),
                forall|k: int| j <= k < n ==> #[trigger] self.addresses@[k] == before[k],
            decreases n - j,
        {
            let flag = self.addresses[j].id == address_id;
            self.addresses[j].is_default = flag;
            j = j + 1;
        }
        assert(self.addresses@ =~= defaulted_to(before, address_id));
        Ok(())
    }

    /// Removes the addresses identified by `address_id`; if the default was
    /// among them, the first remaining address becomes the default.
    pub fn remove_address(&mut self, address_id: u128) -> (r: Result<(), DomainError>)
        ensures
            !has_address(old(self).addresses@, address_id) ==> *final(self) == *old(self)
                && fails_not_found(r, "address "@ + uuid_text(address_id) + " not found"@),
            has_address(old(self).addresses@, address_id) ==> r is Ok && final(self).addresses@
                == promoted(without_address(old(self).addresses@, address_id)) && *final(self) == (
            CustomerProfile { addresses: final(self).addresses, ..*old(self) }),
            has_address(old(self).addresses@, address_id) ==> final(self).addresses@.len()
                == without_address(old(self).addresses@, address_id).len(),
            has_address(old(self).addresses@, address_id) && has_default(
                without_address(old(self).addresses@, address_id),
            ) ==> final(self).addresses@ == without_address(old(self).addresses@, address_id),
            has_address(old(self).addresses@, address_id) && without_address(
                old(self).addresses@,
                address_id,
            ).len() > 0 && !has_default(without_address(old(self).addresses@, address_id))
                ==> final(self).addresses@[0] == with_default_flag(
                without_address(old(self).addresses@, address_id)[0],
                true,
            ) && forall|i: int|
                0 < i < final(self).addresses@.len() ==> #[trigger] final(self).addresses@[i]
                    == without_address(old(self).addresses@, address_id)[i],
    {
        proof {
            law_removal_promotes_first(old(self).addresses@, address_id);
        }
        let before = self.addresses.len();
        let mut present = false;
        let mut p: usize = 0;
        while p < before
            invariant
                before == self.addresses@.len(),
                p <= before,
                present == (exists|k: int| 0 <= k < p && #[trigger] self.addresses@[k].id == address_id),
            decreases before - p,
        {
            if self.addresses[p].id == address_id {
                present = true;
            }
            p = p + 1;
        }
        if !present {
            let m = join_text("address ", id_text(address_id).as_str()).concat(" not found");
            return Err(DomainError::NotFound(m));
        }
        let ghost orig = self.addresses@;
        let mut rest: Vec<SavedAddress> = Vec::new();
        std::mem::swap(&mut rest, &mut self.addresses);
        let mut kept: Vec<SavedAddress> = Vec::new();
        let mut i: usize = 0;
        while rest.len() > 0
            invariant
                before == orig.len(),
                i <= before,
                rest@ == orig.subrange(i as int, before as int),
                kept@ == orig.subrange(0, i as int).filter(not_identified_by(address_id)),
                *self == (CustomerProfile { addresses: self.addresses, ..*old(self) }),
                orig == old(self).addresses@,
            decreases rest.len(),
        {
            let a = rest.remove(0);
            proof {
                reveal(Seq::filter);
                assert(orig.subrange(0, i + 1).drop_last() =~= orig.subrange(0, i as int));
                assert(orig.subrange(0, i + 1).last() == orig[i as int]);
                assert(a == orig[i as int]);
            }
            if a.id != address_id {
                kept.push(a);
            }
            i = i + 1;
        }
        assert(orig.subrange(0, before as int) =~= orig);
        let n = kept.len();
        let mut any_default = false;
        let mut j: usize = 0;
        while j < n
            invariant
                n == kept@.len(),
                j <= n,
                any_default == (exists|k: int| 0 <= k < j && #[trigger] kept@[k].is_default),
            decreases n - j,
        {
            if kept[j].is_default {
                any_default = true;
            }
            j = j + 1;
        }
        if n > 0 && !any_default {
            kept[0].is_default = true;
        }
        self.addresses = kept;
        Ok(())
    }

    /// The first address flagged as default, if any.
    pub fn default_address(&self) -> (r: Option<&SavedAddress>)
        ensures
            match first_default(self.addresses@) {
                Some(i) => r == Some(&self.addresses@[i]),
                None => r is None,
            },
    {
        let n = self.addresses.len();
        let mut i: usize = 0;
        while i < n
            invariant
                n == self.addresses@.len(),
                i <= n,
                forall|k: int| 0 <= k < i ==> !(#[trigger] self.addresses@[k].is_default),
            decreases n - i,
        {
            if self.addresses[i].is_default {
                proof {
                    let book = self.addresses@;
                    assert(has_default(book));
                    lemma_first_default_exists(book);
                    let c = choose|c: int|
                        0 <= c < book.len() && book[c].is_default && forall|j: int|
                            0 <= j < c ==> !(#[trigger] book[j].is_default);
                    if c < i {
                    } else if c > i {
                        assert(!book[i as int].is_default);
                    }
                    assert(c == i);
                }
                return Some(&self.addresses[i]);
            }
            i = i + 1;
        }
        None
    }

    /// Adds loyalty points, saturating at the largest representable count.
    pub fn add_loyalty_points(&mut self, points: u64)
        ensures
            final(self).loyalty_points == if old(self).loyalty_points + points > u64::MAX {
                u64::MAX as int
            } else {
                old(self).loyalty_points + points
            },
            *final(self) == (CustomerProfile {
                loyalty_points: final(self).loyalty_points,
                ..*old(self)
            }),
    {
        self.loyalty_points = self.loyalty_points.saturating_add(points);
    }

    /// Spends loyalty points; fails when there are not enough.
    pub fn spend_loyalty_points(&mut self, points: u64) -> (r: Result<(), DomainError>)
        ensures
            old(self).loyalty_points < points ==> *final(self) == *old(self) && fails_validation(
                r,
                "insufficient loyalty points: have "@ + decimal_text(old(self).loyalty_points as nat)
                    + ", need "@ + decimal_text(points as nat),
            ),
            old(self).loyalty_points >= points ==> r is Ok && *final(self) == (CustomerProfile {
                loyalty_points: (old(self).loyalty_points - points) as u64,
                ..*old(self)
            }),
    {
        if self.loyalty_points < points {
            let m = join_text("insufficient loyalty points: have ", u64_text(self.loyalty_points).as_str())
                .concat(", need ").concat(u64_text(points).as_str());
            return Err(DomainError::validation(m));
        }
        self.loyalty_points = self.loyalty_points - points;
        Ok(())
    }
}

} // verus!
