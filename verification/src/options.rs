//! Evaluation metadata attached to a function-call node.

use vstd::prelude::*;

verus! {

/// How a function is applied when its inputs are grouped.
#[derive(Clone, Copy, Debug, PartialEq, Eq, Structural)]
pub enum ApplyOptions {
    /// The whole group is handed to the function at once.
    GroupWise,
    /// The groups are handed over as one list column.
    ApplyList,
    /// Each row of the result depends on the same row of the inputs only.
    ElementWise,
}

/// A permission that a function-call node grants to the engine.
#[derive(Clone, Copy, Debug, PartialEq, Eq, Structural)]
pub enum FunctionFlag {
    /// An input that matches several columns is expanded into one node per
    /// matched column.
    InputWildcardExpansion,
    /// The output may be renamed without recomputing its default name.
    AllowRename,
}

/// A set of [`FunctionFlag`]s.
#[derive(Clone, Copy, Debug, PartialEq, Eq, Structural)]
pub struct FunctionFlags {
    pub input_wildcard_expansion: bool,
    pub allow_rename: bool,
}

impl FunctionFlags {
    /// Whether `flag` is a member of the set.
    pub open spec fn has(self, flag: FunctionFlag) -> bool {
        match flag {
            FunctionFlag::InputWildcardExpansion => self.input_wildcard_expansion,
            FunctionFlag::AllowRename => self.allow_rename,
        }
    }

    /// The set without any flag.
    pub fn empty() -> (flags: FunctionFlags)
        ensures
            flags@ == Set::<FunctionFlag>::empty(),
    {
        let flags = FunctionFlags { input_wildcard_expansion: false, allow_rename: false };
        assert(flags@ =~= Set::<FunctionFlag>::empty());
        flags
    }

    /// The set with `flag` added.
    pub fn with(self, flag: FunctionFlag) -> (flags: FunctionFlags)
        ensures
            flags@ == self@.insert(flag),
    {
        let flags = match flag {
            FunctionFlag::InputWildcardExpansion => FunctionFlags {
                input_wildcard_expansion: true,
                allow_rename: self.allow_rename,
            },
            FunctionFlag::AllowRename => FunctionFlags {
                input_wildcard_expansion: self.input_wildcard_expansion,
                allow_rename: true,
            },
        };
        assert(flags@ =~= self@.insert(flag));
        flags
    }

    /// Whether `flag` is a member of the set.
    pub fn contains(&self, flag: FunctionFlag) -> (found: bool)
        ensures
            found == self@.contains(flag),
    {
        match flag {
            FunctionFlag::InputWildcardExpansion => self.input_wildcard_expansion,
            FunctionFlag::AllowRename => self.allow_rename,
        }
    }
}

impl View for FunctionFlags {
    type V = Set<FunctionFlag>;

    open spec fn view(&self) -> Set<FunctionFlag> {
        Set::new(|flag: FunctionFlag| self.has(flag))
    }
}

/// The metadata that the optimizer and the executor read from a
/// function-call node.
#[derive(Clone, Copy, Debug, PartialEq, Eq)]
pub struct FunctionOptions {
    /// The grouping policy.
    pub collect_groups: ApplyOptions,
    /// The permissions granted.
    pub flags: FunctionFlags,
    /// The label under which the node is shown in diagnostics.
    pub fmt_str: &'static str,
}

/// What a [`FunctionOptions`] stands for.
pub struct FunctionOptionsView {
    pub collect_groups: ApplyOptions,
    pub flags: Set<FunctionFlag>,
    pub fmt_str: Seq<char>,
}

impl View for FunctionOptions {
    type V = FunctionOptionsView;

    open spec fn view(&self) -> FunctionOptionsView {
        FunctionOptionsView {
            collect_groups: self.collect_groups,
            flags: self.flags@,
            fmt_str: self.fmt_str@,
        }
    }
}

} // verus!
