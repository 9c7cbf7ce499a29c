//! Wrapper types that install the Multicall3 hook in a node.
//!
//! Every Mitosis type wraps the corresponding upstream type and hands all
//! work to it; the block executor adds only the Multicall3 write to the
//! pre-execution phase of each block.

use vstd::prelude::*;

verus! {

/// Wrapper that fires the Multicall3 pre-execution hook and hands everything
/// else to the upstream block executor it holds.
#[derive(Debug)]
pub struct MitosisBlockExecutor<Inner> {
    inner: Inner,
}

impl<Inner> MitosisBlockExecutor<Inner> {
    /// The upstream executor that this one wraps.
    pub closed spec fn wrapped(self) -> Inner {
        self.inner
    }

    /// Wraps an existing block executor.
    pub fn new(inner: Inner) -> (r: Self)
        ensures
            r.wrapped() == inner,
    {
        Self { inner }
    }

    /// Gives back the wrapped upstream executor.
    pub fn into_inner(self) -> (r: Inner)
        ensures
            r == self.wrapped(),
    {
        self.inner
    }
}

/// Wraps an upstream block-executor factory and produces
/// [`MitosisBlockExecutor`] instances.
#[derive(Debug, Clone)]
pub struct MitosisBlockExecutorFactory<Inner> {
    inner: Inner,
}

impl<Inner> MitosisBlockExecutorFactory<Inner> {
    /// The upstream factory that this one wraps.
    pub closed spec fn wrapped(self) -> Inner {
        self.inner
    }

    /// Creates a new factory wrapping an existing upstream factory.
    pub fn new(inner: Inner) -> (r: Self)
        ensures
            r.wrapped() == inner,
    {
        Self { inner }
    }

    /// Gives back the wrapped upstream factory.
    pub fn into_inner(self) -> (r: Inner)
        ensures
            r == self.wrapped(),
    {
        self.inner
    }

}

/// Node-builder executor component that installs the Mitosis EVM
/// configuration.
#[derive(Debug, Default, Clone, Copy)]
#[non_exhaustive]
pub struct MitosisExecutorBuilder;

} // verus!
