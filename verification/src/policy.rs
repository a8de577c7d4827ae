//! How the two kinds of node differ in the permissions they grant.

use crate::datetime::{datetime_node, DatetimeArgsView};
use crate::duration::{duration_node, DurationArgsView};
use crate::options::{ApplyOptions, FunctionFlag};
use vstd::prelude::*;

verus! {

/// A datetime node may be renamed by the engine; a duration node keeps its
/// default name.
pub proof fn lemma_only_datetime_allows_rename(dt: DatetimeArgsView, du: DurationArgsView)
    ensures
        datetime_node(dt)->options.flags.contains(FunctionFlag::AllowRename),
        !duration_node(du)->options.flags.contains(FunctionFlag::AllowRename),
{
}

/// Both kinds of node work row by row and have a wildcard input expanded.
pub proof fn lemma_both_element_wise_and_expanding(dt: DatetimeArgsView, du: DurationArgsView)
    ensures
        datetime_node(dt)->options.collect_groups == ApplyOptions::ElementWise,
        duration_node(du)->options.collect_groups == ApplyOptions::ElementWise,
        datetime_node(dt)->options.flags.contains(FunctionFlag::InputWildcardExpansion),
        duration_node(du)->options.flags.contains(FunctionFlag::InputWildcardExpansion),
{
}

} // verus!
