//! The data-type builder chain.
//!
//! The generated `data_type` body starts a builder, switches on one method
//! per enabled flag, and finishes with `build`. The order of the methods is
//! fixed; only which of them appear depends on the configuration.

use vstd::prelude::*;
use crate::attrs::ResolvedAttrs;
use crate::attrs::ResolvedAttrsView;

verus! {

/// One optional method of the builder chain, in the order it may appear.
#[derive(Clone, Copy, PartialEq, Eq, Debug)]
pub enum DataTypeFlag {
    Mark,
    Size,
    Compact,
    FreeImmediately,
    WbProtected,
    FrozenShareable,
}

/// The exact chain of optional builder methods for a configuration: each
/// enabled flag appears once, in the fixed order `mark`, `size`, `compact`,
/// `free_immediately`, `wb_protected`, `frozen_shareable`.
pub open spec fn builder_flags_spec(a: ResolvedAttrsView) -> Seq<DataTypeFlag> {
    (if a.mark {
        seq![DataTypeFlag::Mark]
    } else {
        Seq::empty()
    }) + (if a.size {
        seq![DataTypeFlag::Size]
    } else {
        Seq::empty()
    }) + (if a.compact {
        seq![DataTypeFlag::Compact]
    } else {
        Seq::empty()
    }) + (if a.free_immediately {
        seq![DataTypeFlag::FreeImmediately]
    } else {
        Seq::empty()
    }) + (if a.wb_protected {
        seq![DataTypeFlag::WbProtected]
    } else {
        Seq::empty()
    }) + (if a.frozen_shareable {
        seq![DataTypeFlag::FrozenShareable]
    } else {
        Seq::empty()
    })
}

/// Lists the optional builder methods the configuration enables, exactly as
/// [`builder_flags_spec`] says.
pub fn builder_flags(a: &ResolvedAttrs) -> (r: Vec<DataTypeFlag>)
    ensures
        r@ == builder_flags_spec(a@),
{
    let mut v: Vec<DataTypeFlag> = Vec::new();
    if a.mark {
        v.push(DataTypeFlag::Mark);
    }
    if a.size {
        v.push(DataTypeFlag::Size);
    }
    if a.compact {
        v.push(DataTypeFlag::Compact);
    }
    if a.free_immediately {
        v.push(DataTypeFlag::FreeImmediately);
    }
    if a.wb_protected {
        v.push(DataTypeFlag::WbProtected);
    }
    if a.frozen_shareable {
        v.push(DataTypeFlag::FrozenShareable);
    }
    proof {
        assert(v@ =~= builder_flags_spec(a@));
    }
    v
}

} // verus!
