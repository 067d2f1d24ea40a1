//! The settings of directory compression with LZ4.
use vstd::prelude::*;

verus! {

/// The LZ4 compression mode.
#[derive(Debug, Clone, Copy, PartialEq, Eq, Structural)]
pub enum Lz4CompressMethod {
    UNHC,
    HC,
}

impl Default for Lz4CompressMethod {
    fn default() -> (res: Self)
        ensures
            res == Lz4CompressMethod::UNHC,
    {
        Lz4CompressMethod::UNHC
    }
}

/// Whether a directory is archived then compressed, or its files are
/// compressed then archived.
#[derive(Debug, Clone, Copy, PartialEq, Eq, Structural)]
pub enum Lz4Sequence {
    TarLz4,
    Lz4Tar,
}

impl Default for Lz4Sequence {
    fn default() -> (res: Self)
        ensures
            res == Lz4Sequence::TarLz4,
    {
        Lz4Sequence::TarLz4
    }
}

/// How a directory is compressed.
#[derive(Debug)]
pub struct Lz4Config {
    is_force: bool,
    compress_mode: Lz4CompressMethod,
    sequence: Lz4Sequence,
}

impl Lz4Config {
    /// Whether existing output is overwritten.
    pub closed spec fn force_view(&self) -> bool {
        self.is_force
    }

    /// The compression mode.
    pub closed spec fn mode_view(&self) -> Lz4CompressMethod {
        self.compress_mode
    }

    /// The order of archiving and compressing.
    pub closed spec fn sequence_view(&self) -> Lz4Sequence {
        self.sequence
    }

    /// The order of archiving and compressing.
    pub fn sequence(&self) -> (res: Lz4Sequence)
        ensures
            res == self.sequence_view(),
    {
        self.sequence
    }
}

impl Default for Lz4Config {
    fn default() -> (res: Self)
        ensures
            !res.force_view(),
            res.mode_view() == Lz4CompressMethod::UNHC,
            res.sequence_view() == Lz4Sequence::TarLz4,
    {
        Self { is_force: false, compress_mode: Lz4CompressMethod::UNHC, sequence: Lz4Sequence::TarLz4 }
    }
}

} // verus!
