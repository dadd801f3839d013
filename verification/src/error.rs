use vstd::prelude::*;

verus! {

/// Why a workflow refused to run.
#[derive(Clone, Copy, Debug, PartialEq, Eq, Structural)]
pub enum ErrorCode {
    /// Set-up was run again, or a collection slot it was given is occupied.
    CollectionAlreadyInitialized,
    /// The collection that the workflow works under does not exist yet.
    CollectionNotInitialized,
    /// The slot for the new reward asset is occupied.
    AssetAlreadyInitialized,
    /// The player's burn counter is not at the reward threshold.
    NotEnoughBurns,
}

impl ErrorCode {
    /// The text shown to a caller for each error.
    pub open spec fn message_text(self) -> Seq<char> {
        match self {
            ErrorCode::CollectionAlreadyInitialized => "The collection has already been initialized."@,
            ErrorCode::CollectionNotInitialized => "The collection has not been initialized."@,
            ErrorCode::AssetAlreadyInitialized => "The asset has already been initialized."@,
            ErrorCode::NotEnoughBurns => "Not enough cNFTs burned"@,
        }
    }

    pub fn message(&self) -> (r: &'static str)
        ensures
            r@ == self.message_text(),
    {
        match self {
            ErrorCode::CollectionAlreadyInitialized => "The collection has already been initialized.",
            ErrorCode::CollectionNotInitialized => "The collection has not been initialized.",
            ErrorCode::AssetAlreadyInitialized => "The asset has already been initialized.",
            ErrorCode::NotEnoughBurns => "Not enough cNFTs burned",
        }
    }
}

} // verus!
