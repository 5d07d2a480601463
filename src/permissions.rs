use vstd::prelude::*;

verus! {

/// Bit of the administrator capability.
pub const ADMINISTRATOR: u64 = 0x8;

/// Bit of the capability to read messages and see a channel.
pub const VIEW_CHANNEL: u64 = 0x400;

/// Bit of the capability to send messages.
pub const SEND_MESSAGES: u64 = 0x800;

/// Bit of the capability to delete other users' messages.
pub const MANAGE_MESSAGES: u64 = 0x2000;

/// Bit of the capability to embed links.
pub const EMBED_LINKS: u64 = 0x4000;

/// Bit of the capability to attach files.
pub const ATTACH_FILES: u64 = 0x8000;

/// Bit of the capability to add reactions.
pub const ADD_REACTIONS: u64 = 0x40;

/// Bit of the capability to kick members.
pub const KICK_MEMBERS: u64 = 0x2;

/// Bit of the capability to ban members.
pub const BAN_MEMBERS: u64 = 0x4;

/// Bit of the capability to manage roles.
pub const MANAGE_ROLES: u64 = 0x1000_0000;

/// The bits of every capability that a permission set can hold.
pub const ALL_BITS: u64 = 0x1FF_FFFF_FFFF;

/// An immutable set of capabilities, stored as a bit set over `ALL_BITS`.
#[derive(Clone, Copy, Debug, PartialEq, Eq, Structural)]
pub struct PermissionSet {
    bits: u64,
}

impl View for PermissionSet {
    type V = u64;

    closed spec fn view(&self) -> u64 {
        self.bits
    }
}

/// The set difference of two bit sets: the bits of `a` that are not in `b`.
pub open spec fn bits_minus(a: u64, b: u64) -> u64 {
    a & !b
}

impl PermissionSet {
    /// The permission set whose bits are `bits`.
    pub closed spec fn from_view(bits: u64) -> PermissionSet {
        PermissionSet { bits }
    }

    /// The set of every known capability, as a spec value.
    pub open spec fn spec_all() -> PermissionSet {
        PermissionSet::from_view(ALL_BITS)
    }

    /// The set with no capability, as a spec value.
    pub open spec fn spec_empty() -> PermissionSet {
        PermissionSet::from_view(0)
    }

    /// A permission set holds no bit outside the known capabilities.
    pub open spec fn wf(&self) -> bool {
        self@ & !ALL_BITS == 0
    }

    /// The set with no capability.
    pub fn empty() -> (r: PermissionSet)
        ensures
            r@ == 0,
            r == PermissionSet::spec_empty(),
            r.wf(),
    {
        proof {
            assert(0u64 & !ALL_BITS == 0) by (bit_vector);
        }
        PermissionSet { bits: 0 }
    }

    /// The set of every known capability.
    pub fn all() -> (r: PermissionSet)
        ensures
            r@ == ALL_BITS,
            r == PermissionSet::spec_all(),
            r.wf(),
    {
        proof {
            assert(0x1FF_FFFF_FFFFu64 & !0x1FF_FFFF_FFFFu64 == 0) by (bit_vector);
        }
        PermissionSet { bits: ALL_BITS }
    }

    /// The set of the known capabilities among `bits`; other bits are dropped.
    pub fn from_bits_truncate(bits: u64) -> (r: PermissionSet)
        ensures
            r@ == bits & ALL_BITS,
            r.wf(),
    {
        proof {
            assert((bits & 0x1FF_FFFF_FFFFu64) & !0x1FF_FFFF_FFFFu64 == 0) by (bit_vector);
        }
        PermissionSet { bits: bits & ALL_BITS }
    }

    /// The raw bits of the set.
    pub fn bits(&self) -> (r: u64)
        ensures
            r == self@,
    {
        self.bits
    }

    /// Whether the set holds no capability.
    pub fn is_empty(&self) -> (r: bool)
        ensures
            r == (self@ == 0),
    {
        self.bits == 0
    }

    /// Whether every capability of `other` is in this set.
    pub fn contains(&self, other: &PermissionSet) -> (r: bool)
        ensures
            r == (self@ & other@ == other@),
    {
        self.bits & other.bits == other.bits
    }

    /// The capabilities that are in either set.
    pub fn union(&self, other: &PermissionSet) -> (r: PermissionSet)
        requires
            self.wf(),
            other.wf(),
        ensures
            r@ == self@ | other@,
            r.wf(),
    {
        let a = self.bits;
        let b = other.bits;
        proof {
            assert(a & !0x1FF_FFFF_FFFFu64 == 0 && b & !0x1FF_FFFF_FFFFu64 == 0 ==> (a | b)
                & !0x1FF_FFFF_FFFFu64 == 0) by (bit_vector);
        }
        PermissionSet { bits: a | b }
    }

    /// The capabilities of this set that are not in `other`.
    pub fn difference(&self, other: &PermissionSet) -> (r: PermissionSet)
        ensures
            r@ == bits_minus(self@, other@),
            self.wf() ==> r.wf(),
    {
        let a = self.bits;
        let b = other.bits;
        proof {
            assert(a & !0x1FF_FFFF_FFFFu64 == 0 ==> (a & !b) & !0x1FF_FFFF_FFFFu64 == 0)
                by (bit_vector);
        }
        PermissionSet { bits: a & !b }
    }
}

/// The capabilities of `required` that `actual` lacks; `None` when the actual permissions are
/// unknown. An empty requirement lacks nothing, whatever is known.
pub open spec fn spec_missing(required: PermissionSet, actual: Option<PermissionSet>) -> Option<
    PermissionSet,
> {
    if required@ == 0 {
        Some(PermissionSet::spec_empty())
    } else {
        match actual {
            None => None,
            Some(a) => Some(PermissionSet::from_view(bits_minus(required@, a@))),
        }
    }
}

/// Whether the permissions of the invoker must be resolved to check `required`: only when it
/// asks for some capability.
pub fn needs_resolution(required: &PermissionSet) -> (r: bool)
    ensures
        r == (required@ != 0),
{
    !required.is_empty()
}

/// The capabilities of `required` that the resolved permissions `actual` lack.
///
/// An empty requirement gives `Some(empty)` without looking at `actual`; unknown permissions
/// give `None`; otherwise the set difference `required - actual`.
pub fn missing_permissions(required: PermissionSet, actual: Option<PermissionSet>) -> (r: Option<
    PermissionSet,
>)
    ensures
        r == spec_missing(required, actual),
{
    if required.is_empty() {
        return Some(PermissionSet::empty());
    }
    match actual {
        Some(perms) => Some(required.difference(&perms)),
        None => None,
    }
}

/// A permission set is determined by its bits.
pub broadcast proof fn lemma_view_injective(a: PermissionSet, b: PermissionSet)
    ensures
        #[trigger] (a@) == #[trigger] (b@) ==> a == b,
{
}

/// The bits of the set built from `bits` are `bits`.
pub broadcast proof fn lemma_from_view(bits: u64)
    ensures
        #[trigger] PermissionSet::from_view(bits)@ == bits,
{
}

/// The model of permission sets: a set is its bits.
pub broadcast group group_permission_set {
    lemma_view_injective,
    lemma_from_view,
}

/// Taking away every known capability leaves nothing of a well-formed set.
pub proof fn lemma_minus_all_is_empty(a: u64)
    requires
        a & !ALL_BITS == 0,
    ensures
        bits_minus(a, ALL_BITS) == 0,
{
}

} // verus!
