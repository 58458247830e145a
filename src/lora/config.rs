//! A LoRa radio configuration, assembled with a builder that accepts every field exactly once
use crate::lora::types::{
    Bandwidth, CodingRate, CrcMode, Frequency, HeaderMode, Polarity, PreambleLength, SpreadingFactor, SyncWord,
};
use vstd::prelude::*;

verus! {

/// A LoRa configuration builder
///
/// Each slot starts out as `()` and can be set exactly once, since its setter only exists while the slot is
/// still empty. Once all nine slots are set, the builder is a complete [`Config`].
#[derive(Debug, Clone, Copy)]
pub struct Builder<S = (), B = (), R = (), P = (), H = (), C = (), W = (), L = (), F = ()> {
    /// The spreading factor
    s: S,
    /// The bandwidth
    b: B,
    /// The coding rate
    r: R,
    /// The IQ polarity
    p: P,
    /// The header mode
    h: H,
    /// The CRC mode
    c: C,
    /// The sync word
    w: W,
    /// The preamble length
    l: L,
    /// The frequency
    f: F,
}

impl<S, B, R, P, H, C, W, L, F> Builder<S, B, R, P, H, C, W, L, F> {
    /// The spreading factor slot
    pub closed spec fn spec_spreading_factor(&self) -> S {
        self.s
    }

    /// The bandwidth slot
    pub closed spec fn spec_bandwidth(&self) -> B {
        self.b
    }

    /// The coding rate slot
    pub closed spec fn spec_coding_rate(&self) -> R {
        self.r
    }

    /// The IQ polarity slot
    pub closed spec fn spec_polarity(&self) -> P {
        self.p
    }

    /// The header mode slot
    pub closed spec fn spec_header_mode(&self) -> H {
        self.h
    }

    /// The CRC mode slot
    pub closed spec fn spec_crc_mode(&self) -> C {
        self.c
    }

    /// The sync word slot
    pub closed spec fn spec_sync_word(&self) -> W {
        self.w
    }

    /// The preamble length slot
    pub closed spec fn spec_preamble_len(&self) -> L {
        self.l
    }

    /// The frequency slot
    pub closed spec fn spec_frequency(&self) -> F {
        self.f
    }
}

impl<B, R, P, H, C, W, L, F> Builder<(), B, R, P, H, C, W, L, F> {
    /// Sets the spreading factor
    pub fn set_spreading_factor(self, s: SpreadingFactor) -> (next: Builder<SpreadingFactor, B, R, P, H, C, W, L, F>)
        ensures
            next.spec_spreading_factor() == s,
            next.spec_bandwidth() == self.spec_bandwidth(),
            next.spec_coding_rate() == self.spec_coding_rate(),
            next.spec_polarity() == self.spec_polarity(),
            next.spec_header_mode() == self.spec_header_mode(),
            next.spec_crc_mode() == self.spec_crc_mode(),
            next.spec_sync_word() == self.spec_sync_word(),
            next.spec_preamble_len() == self.spec_preamble_len(),
            next.spec_frequency() == self.spec_frequency(),
    {
        Builder { s, b: self.b, r: self.r, p: self.p, h: self.h, c: self.c, w: self.w, l: self.l, f: self.f }
    }
}

impl<S, R, P, H, C, W, L, F> Builder<S, (), R, P, H, C, W, L, F> {
    /// Sets the bandwidth
    pub fn set_bandwidth(self, b: Bandwidth) -> (next: Builder<S, Bandwidth, R, P, H, C, W, L, F>)
        ensures
            next.spec_spreading_factor() == self.spec_spreading_factor(),
            next.spec_bandwidth() == b,
            next.spec_coding_rate() == self.spec_coding_rate(),
            next.spec_polarity() == self.spec_polarity(),
            next.spec_header_mode() == self.spec_header_mode(),
            next.spec_crc_mode() == self.spec_crc_mode(),
            next.spec_sync_word() == self.spec_sync_word(),
            next.spec_preamble_len() == self.spec_preamble_len(),
            next.spec_frequency() == self.spec_frequency(),
    {
        Builder { s: self.s, b, r: self.r, p: self.p, h: self.h, c: self.c, w: self.w, l: self.l, f: self.f }
    }
}

impl<S, B, P, H, C, W, L, F> Builder<S, B, (), P, H, C, W, L, F> {
    /// Sets the coding rate
    pub fn set_coding_rate(self, r: CodingRate) -> (next: Builder<S, B, CodingRate, P, H, C, W, L, F>)
        ensures
            next.spec_spreading_factor() == self.spec_spreading_factor(),
            next.spec_bandwidth() == self.spec_bandwidth(),
            next.spec_coding_rate() == r,
            next.spec_polarity() == self.spec_polarity(),
            next.spec_header_mode() == self.spec_header_mode(),
            next.spec_crc_mode() == self.spec_crc_mode(),
            next.spec_sync_word() == self.spec_sync_word(),
            next.spec_preamble_len() == self.spec_preamble_len(),
            next.spec_frequency() == self.spec_frequency(),
    {
        Builder { s: self.s, b: self.b, r, p: self.p, h: self.h, c: self.c, w: self.w, l: self.l, f: self.f }
    }
}

impl<S, B, R, H, C, W, L, F> Builder<S, B, R, (), H, C, W, L, F> {
    /// Sets the IQ polarity
    pub fn set_polarity(self, p: Polarity) -> (next: Builder<S, B, R, Polarity, H, C, W, L, F>)
        ensures
            next.spec_spreading_factor() == self.spec_spreading_factor(),
            next.spec_bandwidth() == self.spec_bandwidth(),
            next.spec_coding_rate() == self.spec_coding_rate(),
            next.spec_polarity() == p,
            next.spec_header_mode() == self.spec_header_mode(),
            next.spec_crc_mode() == self.spec_crc_mode(),
            next.spec_sync_word() == self.spec_sync_word(),
            next.spec_preamble_len() == self.spec_preamble_len(),
            next.spec_frequency() == self.spec_frequency(),
    {
        Builder { s: self.s, b: self.b, r: self.r, p, h: self.h, c: self.c, w: self.w, l: self.l, f: self.f }
    }
}

impl<S, B, R, P, C, W, L, F> Builder<S, B, R, P, (), C, W, L, F> {
    /// Sets the header mode
    pub fn set_header_mode(self, h: HeaderMode) -> (next: Builder<S, B, R, P, HeaderMode, C, W, L, F>)
        ensures
            next.spec_spreading_factor() == self.spec_spreading_factor(),
            next.spec_bandwidth() == self.spec_bandwidth(),
            next.spec_coding_rate() == self.spec_coding_rate(),
            next.spec_polarity() == self.spec_polarity(),
            next.spec_header_mode() == h,
            next.spec_crc_mode() == self.spec_crc_mode(),
            next.spec_sync_word() == self.spec_sync_word(),
            next.spec_preamble_len() == self.spec_preamble_len(),
            next.spec_frequency() == self.spec_frequency(),
    {
        Builder { s: self.s, b: self.b, r: self.r, p: self.p, h, c: self.c, w: self.w, l: self.l, f: self.f }
    }
}

impl<S, B, R, P, H, W, L, F> Builder<S, B, R, P, H, (), W, L, F> {
    /// Sets the CRC mode
    pub fn set_crc_mode(self, c: CrcMode) -> (next: Builder<S, B, R, P, H, CrcMode, W, L, F>)
        ensures
            next.spec_spreading_factor() == self.spec_spreading_factor(),
            next.spec_bandwidth() == self.spec_bandwidth(),
            next.spec_coding_rate() == self.spec_coding_rate(),
            next.spec_polarity() == self.spec_polarity(),
            next.spec_header_mode() == self.spec_header_mode(),
            next.spec_crc_mode() == c,
            next.spec_sync_word() == self.spec_sync_word(),
            next.spec_preamble_len() == self.spec_preamble_len(),
            next.spec_frequency() == self.spec_frequency(),
    {
        Builder { s: self.s, b: self.b, r: self.r, p: self.p, h: self.h, c, w: self.w, l: self.l, f: self.f }
    }
}

impl<S, B, R, P, H, C, L, F> Builder<S, B, R, P, H, C, (), L, F> {
    /// Sets the sync word
    pub fn set_sync_word(self, w: SyncWord) -> (next: Builder<S, B, R, P, H, C, SyncWord, L, F>)
        ensures
            next.spec_spreading_factor() == self.spec_spreading_factor(),
            next.spec_bandwidth() == self.spec_bandwidth(),
            next.spec_coding_rate() == self.spec_coding_rate(),
            next.spec_polarity() == self.spec_polarity(),
            next.spec_header_mode() == self.spec_header_mode(),
            next.spec_crc_mode() == self.spec_crc_mode(),
            next.spec_sync_word() == w,
            next.spec_preamble_len() == self.spec_preamble_len(),
            next.spec_frequency() == self.spec_frequency(),
    {
        Builder { s: self.s, b: self.b, r: self.r, p: self.p, h: self.h, c: self.c, w, l: self.l, f: self.f }
    }
}

impl<S, B, R, P, H, C, W, F> Builder<S, B, R, P, H, C, W, (), F> {
    /// Sets the preamble length
    pub fn set_preamble_length(self, l: PreambleLength) -> (next: Builder<S, B, R, P, H, C, W, PreambleLength, F>)
        ensures
            next.spec_spreading_factor() == self.spec_spreading_factor(),
            next.spec_bandwidth() == self.spec_bandwidth(),
            next.spec_coding_rate() == self.spec_coding_rate(),
            next.spec_polarity() == self.spec_polarity(),
            next.spec_header_mode() == self.spec_header_mode(),
            next.spec_crc_mode() == self.spec_crc_mode(),
            next.spec_sync_word() == self.spec_sync_word(),
            next.spec_preamble_len() == l,
            next.spec_frequency() == self.spec_frequency(),
    {
        Builder { s: self.s, b: self.b, r: self.r, p: self.p, h: self.h, c: self.c, w: self.w, l, f: self.f }
    }
}

impl<S, B, R, P, H, C, W, L> Builder<S, B, R, P, H, C, W, L, ()> {
    /// Sets the frequency
    pub fn set_frequency(self, f: Frequency) -> (next: Builder<S, B, R, P, H, C, W, L, Frequency>)
        ensures
            next.spec_spreading_factor() == self.spec_spreading_factor(),
            next.spec_bandwidth() == self.spec_bandwidth(),
            next.spec_coding_rate() == self.spec_coding_rate(),
            next.spec_polarity() == self.spec_polarity(),
            next.spec_header_mode() == self.spec_header_mode(),
            next.spec_crc_mode() == self.spec_crc_mode(),
            next.spec_sync_word() == self.spec_sync_word(),
            next.spec_preamble_len() == self.spec_preamble_len(),
            next.spec_frequency() == f,
    {
        Builder { s: self.s, b: self.b, r: self.r, p: self.p, h: self.h, c: self.c, w: self.w, l: self.l, f }
    }
}

/// A complete LoRa radio configuration
pub type Config = Builder<SpreadingFactor, Bandwidth, CodingRate, Polarity, HeaderMode, CrcMode, SyncWord, PreambleLength, Frequency>;

impl Config {
    /// Creates a new configuration builder with every slot unset
    pub fn builder() -> Builder {
        Builder { s: (), b: (), r: (), p: (), h: (), c: (), w: (), l: (), f: () }
    }

    /// The spreading factor
    pub fn spreading_factor(&self) -> (r: SpreadingFactor)
        ensures
            r == self.spec_spreading_factor(),
    {
        self.s
    }

    /// The bandwidth
    pub fn bandwidth(&self) -> (r: Bandwidth)
        ensures
            r == self.spec_bandwidth(),
    {
        self.b
    }

    /// The coding rate
    pub fn coding_rate(&self) -> (r: CodingRate)
        ensures
            r == self.spec_coding_rate(),
    {
        self.r
    }

    /// The IQ polarity
    pub fn polarity(&self) -> (r: Polarity)
        ensures
            r == self.spec_polarity(),
    {
        self.p
    }

    /// The header mode
    pub fn header_mode(&self) -> (r: HeaderMode)
        ensures
            r == self.spec_header_mode(),
    {
        self.h
    }

    /// The CRC mode
    pub fn crc_mode(&self) -> (r: CrcMode)
        ensures
            r == self.spec_crc_mode(),
    {
        self.c
    }

    /// The sync word
    pub fn sync_word(&self) -> (r: SyncWord)
        ensures
            r == self.spec_sync_word(),
    {
        self.w
    }

    /// The preamble length
    pub fn preamble_len(&self) -> (r: PreambleLength)
        ensures
            r == self.spec_preamble_len(),
    {
        self.l
    }

    /// The frequency
    pub fn frequency(&self) -> (r: Frequency)
        ensures
            r == self.spec_frequency(),
    {
        self.f
    }
}

} // verus!
