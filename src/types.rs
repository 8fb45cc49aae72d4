use vstd::prelude::*;

verus! {

/// Number of bytes of the persisted listing record: four 32-byte
/// identities, four 8-byte integers, five single bytes, one 8-byte integer
/// and a 32-byte digest.
pub const LISTING_LEN: usize = 205;

/// A 32-byte account identity (a public key or a derived address).
#[derive(Clone, Copy, Debug)]
pub struct Address {
    pub bytes: [u8; 32],
}

impl View for Address {
    type V = Seq<u8>;

    open spec fn view(&self) -> Seq<u8> {
        self.bytes@
    }
}

impl Address {
    /// The identity made of the given bytes.
    pub fn new(bytes: [u8; 32]) -> (r: Address)
        ensures
            r.bytes == bytes,
    {
        Address { bytes }
    }

    /// Whether two identities hold the same bytes.
    pub fn same_as(&self, other: &Address) -> (r: bool)
        ensures
            r == (self@ == other@),
    {
        let mut i: usize = 0;
        while i < 32
            invariant
                i <= 32,
                self@.len() == 32,
                other@.len() == 32,
                forall|j: int| 0 <= j < i ==> self@[j] == other@[j],
            decreases 32 - i,
        {
            if self.bytes[i] != other.bytes[i] {
                return false;
            }
            i = i + 1;
        }
        assert(self@ =~= other@);
        true
    }
}

impl PartialEq for Address {
    fn eq(&self, other: &Address) -> (r: bool) {
        self.same_as(other)
    }
}

impl vstd::std_specs::cmp::PartialEqSpecImpl for Address {
    open spec fn obeys_eq_spec() -> bool {
        true
    }

    open spec fn eq_spec(&self, other: &Address) -> bool {
        self@ == other@
    }
}

impl Eq for Address {}

/// How the listing fee is paid.
#[derive(Clone, Copy, Debug, PartialEq, Eq, Structural)]
pub enum FeePaymentMethod {
    /// Fee in the native currency; recorded, not yet collected.
    NativeSol,
    /// Fee settled off-chain, committed to by a payment-proof digest.
    X402,
}

/// The wire code of a fee payment method.
pub open spec fn fee_method_code(m: FeePaymentMethod) -> u8 {
    match m {
        FeePaymentMethod::NativeSol => 0,
        FeePaymentMethod::X402 => 1,
    }
}

impl FeePaymentMethod {
    /// The wire code: 0 for `NativeSol`, 1 for `X402`.
    pub fn as_u8(self) -> (r: u8)
        ensures
            r == fee_method_code(self),
    {
        match self {
            FeePaymentMethod::NativeSol => 0,
            FeePaymentMethod::X402 => 1,
        }
    }

    /// The method with the given wire code, if the code is known.
    pub fn from_u8(code: u8) -> (r: Option<FeePaymentMethod>)
        ensures
            r is Some <==> code <= 1,
            r matches Some(m) ==> fee_method_code(m) == code,
    {
        if code == 0 {
            Some(FeePaymentMethod::NativeSol)
        } else if code == 1 {
            Some(FeePaymentMethod::X402)
        } else {
            None
        }
    }
}

/// Lifecycle state of a listing.
#[derive(Clone, Copy, Debug, PartialEq, Eq, Structural)]
pub enum ListingStatus {
    /// Created, tokens not yet deposited.
    AwaitingDeposit,
    /// Tokens are in the vault; buyers may purchase.
    Active,
    /// Every token has been sold.
    Completed,
    /// The seller withdrew the listing.
    Cancelled,
}

/// The wire code of a status.
pub open spec fn status_code(s: ListingStatus) -> u8 {
    match s {
        ListingStatus::AwaitingDeposit => 0,
        ListingStatus::Active => 1,
        ListingStatus::Completed => 2,
        ListingStatus::Cancelled => 3,
    }
}

/// Whether the lifecycle permits going from `from` to `to` (staying put included).
pub open spec fn status_may_advance(from: ListingStatus, to: ListingStatus) -> bool {
    from == to || match (from, to) {
        (ListingStatus::AwaitingDeposit, ListingStatus::Active) => true,
        (ListingStatus::AwaitingDeposit, ListingStatus::Cancelled) => true,
        (ListingStatus::Active, ListingStatus::Completed) => true,
        (ListingStatus::Active, ListingStatus::Cancelled) => true,
        _ => false,
    }
}

impl ListingStatus {
    /// The wire code: 0 to 3 in lifecycle order.
    pub fn as_u8(self) -> (r: u8)
        ensures
            r == status_code(self),
    {
        match self {
            ListingStatus::AwaitingDeposit => 0,
            ListingStatus::Active => 1,
            ListingStatus::Completed => 2,
            ListingStatus::Cancelled => 3,
        }
    }

    /// The status stored under a wire code; an unknown code reads as `Cancelled`.
    pub fn from_u8(code: u8) -> (r: ListingStatus)
        ensures
            code <= 3 ==> status_code(r) == code,
            code > 3 ==> r == ListingStatus::Cancelled,
    {
        if code == 0 {
            ListingStatus::AwaitingDeposit
        } else if code == 1 {
            ListingStatus::Active
        } else if code == 2 {
            ListingStatus::Completed
        } else {
            ListingStatus::Cancelled
        }
    }
}

} // verus!
