//! The decoded database.

use vstd::prelude::*;

use crate::magic::{Magic, MagicModel};

verus! {

/// A decoded database: its records split into the two declared sets, each in
/// database order.
#[derive(Debug, Default)]
pub struct MagicMap {
    pub left: Vec<Magic>,
    pub right: Vec<Magic>,
}

/// The records of a sequence as plain values.
pub open spec fn record_models(v: Seq<Magic>) -> Seq<MagicModel> {
    v.map_values(|m: Magic| m@)
}

impl View for MagicMap {
    type V = (Seq<MagicModel>, Seq<MagicModel>);

    open spec fn view(&self) -> (Seq<MagicModel>, Seq<MagicModel>) {
        (record_models(self.left@), record_models(self.right@))
    }
}

} // verus!
