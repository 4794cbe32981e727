//! The engine's error values. Configuration errors are fatal before any
//! network call; a create/update failure aborts the run; one specific badge
//! rejection is recognized and replaced with actionable guidance.

use crate::text::push_char;
use vstd::prelude::*;

verus! {

/// The resource kinds the reconciler handles.
#[derive(Debug, Clone, Copy, PartialEq, Eq, Structural)]
pub enum Kind {
    GamePass,
    DeveloperProduct,
    Badge,
}

/// Why a run failed.
#[derive(Debug, Clone)]
pub enum SyncError {
    /// Two declared resources of one kind share a name, case-insensitively.
    DuplicateNames { resource_type: String, duplicates: Vec<String> },
    /// An asset upload was needed but no creator identity is configured.
    MissingCreator,
    /// Badge creation was rejected for a missing payment source.
    BadgePaymentSourceRequired,
    /// A create call succeeded but its response carried no id.
    CreatedWithoutId { kind: Kind },
    /// The remote reported an asset operation as failed.
    AssetOperationFailed { message: String },
    /// The asset operation was still pending after the last poll attempt.
    AssetOperationTimedOut,
    /// The upload response carried neither an asset id nor an operation path.
    OperationMissingPath,
    /// The operation completed without yielding an asset id.
    OperationDoneWithoutId,
    /// An uploaded asset's id is not a decimal number.
    InvalidAssetId { value: String },
    /// A non-success gateway response, passed through.
    Remote { message: String },
}

/// The quoted, comma-separated rendering of a list of names.
pub open spec fn quoted_list(names: Seq<String>) -> Seq<char>
    decreases names.len(),
{
    if names.len() == 0 {
        Seq::empty()
    } else if names.len() == 1 {
        "\""@ + names[0]@ + "\""@
    } else {
        quoted_list(names.drop_last()) + ", "@ + "\""@ + names.last()@ + "\""@
    }
}

fn append_quoted(s: &mut String, name: &String)
    ensures
        final(s)@ == old(s)@ + "\""@ + name@ + "\""@,
{
    push_char(s, '"');
    s.append(name.as_str());
    push_char(s, '"');
    proof {
        reveal_strlit("\"");
        assert(s@ =~= old(s)@ + "\""@ + name@ + "\""@);
    }
}

/// Renders names as a quoted, comma-separated list.
pub fn quoted_name_list(names: &Vec<String>) -> (r: String)
    ensures
        r@ == quoted_list(names@),
{
    let n = names.len();
    let mut s = String::new();
    let mut i: usize = 0;
    proof {
        assert(names@.subrange(0, 0) =~= Seq::<String>::empty());
    }
    while i < n
        invariant
            i <= n,
            n == names@.len(),
            s@ == quoted_list(names@.subrange(0, i as int)),
        decreases n - i,
    {
        if i > 0 {
            s.append(", ");
        }
        append_quoted(&mut s, &names[i]);
        proof {
            assert(names@.subrange(0, i + 1).drop_last() =~= names@.subrange(0, i as int));
            assert(names@.subrange(0, i + 1).last() == names@[i as int]);
            assert(s@ =~= quoted_list(names@.subrange(0, i + 1)));
        }
        i += 1;
    }
    proof {
        assert(names@.subrange(0, n as int) =~= names@);
    }
    s
}

/// The message a duplicate-name rejection carries.
pub open spec fn duplicate_names_message(resource_type: Seq<char>, duplicates: Seq<String>) -> Seq<
    char,
> {
    "Duplicate "@ + resource_type + " names found (names must be unique, case-insensitive): ["@
        + quoted_list(duplicates) + "]"@
}

impl SyncError {
    /// The human-readable description of the failure.
    pub fn message(&self) -> (r: String)
        ensures
            match self {
                SyncError::DuplicateNames { resource_type, duplicates } => r@
                    == duplicate_names_message(resource_type@, duplicates@),
                SyncError::MissingCreator => r@
                    == "Creator configuration is required for asset uploads"@,
                SyncError::BadgePaymentSourceRequired => r@
                    == "Badge creation requires badge_payment_source configuration"@,
                SyncError::CreatedWithoutId { kind } => match kind {
                    Kind::GamePass => r@ == "Created game pass has no ID"@,
                    Kind::DeveloperProduct => r@ == "Created product has no ID"@,
                    Kind::Badge => r@ == "Created badge has no ID"@,
                },
                SyncError::AssetOperationFailed { message } => r@ == "Asset operation failed: "@
                    + message@,
                SyncError::AssetOperationTimedOut => r@
                    == "Operation polling timed out after 30 attempts"@,
                SyncError::OperationMissingPath => r@
                    == "Operation response missing 'path' field"@,
                SyncError::OperationDoneWithoutId => r@
                    == "Operation completed but no asset ID found"@,
                SyncError::InvalidAssetId { value } => r@ == "invalid asset id: '"@ + value@
                    + "'"@,
                SyncError::Remote { message } => r@ == message@,
            },
    {
        match self {
            SyncError::DuplicateNames { resource_type, duplicates } => {
                let mut s = "Duplicate ".to_owned();
                s.append(resource_type.as_str());
                s.append(" names found (names must be unique, case-insensitive): [");
                let list = quoted_name_list(duplicates);
                s.append(list.as_str());
                s.append("]");
                proof {
                    assert(s@ =~= duplicate_names_message(resource_type@, duplicates@));
                }
                s
            },
            SyncError::MissingCreator => "Creator configuration is required for asset uploads".to_owned(),
            SyncError::BadgePaymentSourceRequired => "Badge creation requires badge_payment_source configuration".to_owned(),
            SyncError::CreatedWithoutId { kind } => match kind {
                Kind::GamePass => "Created game pass has no ID".to_owned(),
                Kind::DeveloperProduct => "Created product has no ID".to_owned(),
                Kind::Badge => "Created badge has no ID".to_owned(),
            },
            SyncError::AssetOperationFailed { message } => {
                let mut s = "Asset operation failed: ".to_owned();
                s.append(message.as_str());
                s
            },
            SyncError::AssetOperationTimedOut => "Operation polling timed out after 30 attempts".to_owned(),
            SyncError::OperationMissingPath => "Operation response missing 'path' field".to_owned(),
            SyncError::OperationDoneWithoutId => "Operation completed but no asset ID found".to_owned(),
            SyncError::InvalidAssetId { value } => {
                let mut s = "invalid asset id: '".to_owned();
                s.append(value.as_str());
                s.append("'");
                proof {
                    assert(s@ =~= "invalid asset id: '"@ + value@ + "'"@);
                }
                s
            },
            SyncError::Remote { message } => message.clone(),
        }
    }
}

} // verus!
