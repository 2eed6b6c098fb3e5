//! The earlier form of a build's output, whose hints are plain texts.
use vstd::prelude::*;

use crate::text::{owned, views};
use crate::UncaughtJson;

verus! {

/// The composed supergraph and textual hints about it.
#[derive(Debug)]
pub struct BuildOutput {
    /// The supergraph schema, which a gateway can be started with.
    pub supergraph_sdl: String,
    /// Hints about the composition, to be shown.
    pub hints: Vec<String>,
    /// Untyped JSON carried along with the output.
    other: UncaughtJson,
}

/// The texts of a list of text slices.
pub open spec fn str_views(items: Seq<&str>) -> Seq<Seq<char>> {
    items.map_values(|s: &str| s@)
}

impl BuildOutput {
    /// The untyped JSON carried along.
    pub closed spec fn other_of(self) -> UncaughtJson {
        self.other
    }

    /// The supergraph schema.
    pub closed spec fn sdl_of(self) -> String {
        self.supergraph_sdl
    }

    /// The hints.
    pub closed spec fn hints_of(self) -> Seq<String> {
        self.hints@
    }

    /// The untyped JSON carried along.
    pub fn other_text(&self) -> (r: &str)
        ensures
            r@ == self.other_of()@,
    {
        self.other.as_str()
    }

    /// The output carrying the given untyped JSON instead.
    pub fn with_other(self, other: UncaughtJson) -> (r: BuildOutput)
        ensures
            r.sdl_of() == self.sdl_of(),
            r.hints_of() == self.hints_of(),
            r.other_of() == other,
    {
        BuildOutput { supergraph_sdl: self.supergraph_sdl, hints: self.hints, other }
    }

    /// Output holding only a supergraph schema.
    pub fn new(supergraph_sdl: &str) -> (r: BuildOutput)
        ensures
            r.sdl_of()@ == supergraph_sdl@,
            r.hints_of().len() == 0,
            r.other_of()@.len() == 0,
    {
        let none: Vec<&str> = Vec::new();
        let r = BuildOutput::new_with_hints(supergraph_sdl, none.as_slice());
        assert(views(r.hints_of()).len() == 0);
        r
    }

    /// Output holding a supergraph schema and hints.
    pub fn new_with_hints(supergraph_sdl: &str, hints: &[&str]) -> (r: BuildOutput)
        ensures
            r.sdl_of()@ == supergraph_sdl@,
            views(r.hints_of()) == str_views(hints@),
            r.other_of()@.len() == 0,
    {
        let mut owned_hints: Vec<String> = Vec::new();
        let mut i: usize = 0;
        while i < hints.len()
            invariant
                i <= hints@.len(),
                views(owned_hints@) == str_views(hints@.subrange(0, i as int)),
            decreases hints@.len() - i,
        {
            let h = owned(hints[i]);
            let ghost before = owned_hints@;
            assert(views(before).len() == before.len());
            assert(str_views(hints@.subrange(0, i as int)).len() == i);
            owned_hints.push(h);
            proof {
                let a = views(owned_hints@);
                let b = str_views(hints@.subrange(0, i + 1));
                assert(a.len() == b.len());
                assert forall|j: int| 0 <= j < a.len() implies a[j] == b[j] by {
                    if j < i {
                        assert(a[j] == views(before)[j]);
                        assert(b[j] == str_views(hints@.subrange(0, i as int))[j]);
                    }
                }
                assert(a =~= b);
            }
            i = i + 1;
        }
        assert(hints@.subrange(0, hints@.len() as int) =~= hints@);
        BuildOutput { supergraph_sdl: owned(supergraph_sdl), hints: owned_hints, other: String::new() }
    }
}

} // verus!
