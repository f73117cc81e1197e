//! The record of one donation, and the two ways an operation can be refused.

use crate::host::{copy_address, copy_symbol, Row};
use soroban_sdk::{Address, Symbol};
use vstd::prelude::*;

verus! {

/// Where a donation stands: recorded, or recorded and confirmed as delivered.
#[derive(Clone, Copy, Debug, PartialEq, Eq, Structural)]
pub enum DonationStatus {
    Pending,
    Delivered,
}

impl DonationStatus {
    /// The name under which a status is stored and shown.
    pub open spec fn name(self) -> Seq<char> {
        match self {
            DonationStatus::Pending => "pending"@,
            DonationStatus::Delivered => "delivered"@,
        }
    }

    /// The status by its name.
    pub fn as_str(&self) -> (r: &'static str)
        ensures
            r@ == self.name(),
    {
        match self {
            DonationStatus::Pending => "pending",
            DonationStatus::Delivered => "delivered",
        }
    }
}

/// Why the ledger refused an operation. A refused operation changes nothing.
#[derive(Clone, Copy, Debug, PartialEq, Eq, Structural)]
pub enum LedgerError {
    /// A donation was offered with an amount of zero or less.
    InvalidAmount,
    /// A delivery was confirmed for an index at which no donation stands.
    IndexOutOfBounds,
}

impl LedgerError {
    /// The words that go with each refusal.
    pub open spec fn text(self) -> Seq<char> {
        match self {
            LedgerError::InvalidAmount => "Amount must be positive"@,
            LedgerError::IndexOutOfBounds => "Donation index out of bounds"@,
        }
    }

    /// The refusal in words.
    pub fn message(&self) -> (r: &'static str)
        ensures
            r@ == self.text(),
    {
        match self {
            LedgerError::InvalidAmount => "Amount must be positive",
            LedgerError::IndexOutOfBounds => "Donation index out of bounds",
        }
    }
}

/// One attestation of a contribution.
#[derive(Debug, PartialEq, Eq)]
pub struct Donation {
    pub donor: Address,
    pub amount: i128,
    pub category: Symbol,
    pub region: Symbol,
    pub organization: Symbol,
    /// The host's ledger time when the donation was recorded.
    pub timestamp: u64,
    pub status: DonationStatus,
    /// The proof-of-delivery token, once delivery has been confirmed.
    pub delivery_nft_id: Option<Symbol>,
}

impl Donation {
    /// What holds of every record that a ledger keeps: the amount is positive,
    /// and a delivery token is attached exactly when delivery is confirmed.
    pub open spec fn valid(self) -> bool {
        &&& self.amount > 0
        &&& (self.status == DonationStatus::Delivered) == self.delivery_nft_id.is_some()
    }

    /// The record of a donation that has just been made.
    pub open spec fn pending(
        donor: Address,
        amount: i128,
        category: Symbol,
        region: Symbol,
        organization: Symbol,
        timestamp: u64,
    ) -> Donation {
        Donation {
            donor,
            amount,
            category,
            region,
            organization,
            timestamp,
            status: DonationStatus::Pending,
            delivery_nft_id: None,
        }
    }

    /// A donation that has just been made is pending and has no delivery
    /// token; with a positive amount it is a valid record.
    pub proof fn lemma_pending(
        donor: Address,
        amount: i128,
        category: Symbol,
        region: Symbol,
        organization: Symbol,
        timestamp: u64,
    )
        ensures
            Donation::pending(donor, amount, category, region, organization, timestamp).status
                == DonationStatus::Pending,
            Donation::pending(
                donor,
                amount,
                category,
                region,
                organization,
                timestamp,
            ).delivery_nft_id.is_none(),
            amount > 0 ==> Donation::pending(
                donor,
                amount,
                category,
                region,
                organization,
                timestamp,
            ).valid(),
    {
    }

    /// The record as it stands once delivery is confirmed with `nft_id`.
    pub open spec fn delivered_with(self, nft_id: Symbol) -> Donation {
        Donation {
            status: DonationStatus::Delivered,
            delivery_nft_id: Some(nft_id),
            ..self
        }
    }
}

impl Donation {
    /// The record as the row that the host keeps for it.
    pub open spec fn as_row(self) -> Row {
        (
            self.donor,
            self.amount,
            self.category,
            self.region,
            self.organization,
            self.timestamp,
            self.status == DonationStatus::Delivered,
            self.delivery_nft_id,
        )
    }

    /// The record that a row stands for.
    pub open spec fn of_row(row: Row) -> Donation {
        Donation {
            donor: row.0,
            amount: row.1,
            category: row.2,
            region: row.3,
            organization: row.4,
            timestamp: row.5,
            status: if row.6 {
                DonationStatus::Delivered
            } else {
                DonationStatus::Pending
            },
            delivery_nft_id: row.7,
        }
    }

    /// A record is the record that its row stands for.
    pub proof fn lemma_row_round_trip(self)
        ensures
            Donation::of_row(self.as_row()) == self,
    {
    }

    pub(crate) fn to_row(&self) -> (r: Row)
        ensures
            r == self.as_row(),
    {
        let delivered = match self.status {
            DonationStatus::Pending => false,
            DonationStatus::Delivered => true,
        };
        (
            copy_address(&self.donor),
            self.amount,
            copy_symbol(&self.category),
            copy_symbol(&self.region),
            copy_symbol(&self.organization),
            self.timestamp,
            delivered,
            match &self.delivery_nft_id {
                Some(id) => Some(copy_symbol(id)),
                None => None,
            },
        )
    }

    pub(crate) fn from_row(row: Row) -> (r: Donation)
        ensures
            r == Donation::of_row(row),
    {
        Donation {
            donor: row.0,
            amount: row.1,
            category: row.2,
            region: row.3,
            organization: row.4,
            timestamp: row.5,
            status: if row.6 {
                DonationStatus::Delivered
            } else {
                DonationStatus::Pending
            },
            delivery_nft_id: row.7,
        }
    }
}

impl Clone for Donation {
    fn clone(&self) -> (r: Self)
        ensures
            r == *self,
    {
        Donation {
            donor: copy_address(&self.donor),
            amount: self.amount,
            category: copy_symbol(&self.category),
            region: copy_symbol(&self.region),
            organization: copy_symbol(&self.organization),
            timestamp: self.timestamp,
            status: self.status,
            delivery_nft_id: match &self.delivery_nft_id {
                Some(id) => Some(copy_symbol(id)),
                None => None,
            },
        }
    }
}

} // verus!
