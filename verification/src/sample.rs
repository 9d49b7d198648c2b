//! A received sample with the metadata DDS delivers beside it.
use vstd::prelude::*;

verus! {

/// The metadata of a received sample.
#[derive(Debug, Clone, Copy, PartialEq, Eq)]
pub struct SampleInfo {
    pub sample_state: u32,
    pub view_state: u32,
    pub instance_state: u32,
    pub valid_data: bool,
    pub source_timestamp: i64,
    pub instance_handle: u64,
    pub publication_handle: u64,
    pub disposed_generation_count: u32,
    pub no_writers_generation_count: u32,
    pub sample_rank: u32,
    pub generation_rank: u32,
    pub absolute_generation_rank: u32,
}

/// A received sample: its data and its metadata.
pub struct Sample<T> {
    pub data: T,
    pub info: SampleInfo,
}

impl<T> Sample<T> {
    /// Whether the sample carries data (not only a change of instance state).
    pub fn is_valid(&self) -> (r: bool)
        ensures
            r == self.info.valid_data,
    {
        self.info.valid_data
    }

    pub fn source_timestamp(&self) -> (r: i64)
        ensures
            r == self.info.source_timestamp,
    {
        self.info.source_timestamp
    }

    pub fn instance_handle(&self) -> (r: u64)
        ensures
            r == self.info.instance_handle,
    {
        self.info.instance_handle
    }

    pub fn sample_state(&self) -> (r: u32)
        ensures
            r == self.info.sample_state,
    {
        self.info.sample_state
    }

    pub fn view_state(&self) -> (r: u32)
        ensures
            r == self.info.view_state,
    {
        self.info.view_state
    }

    pub fn instance_state(&self) -> (r: u32)
        ensures
            r == self.info.instance_state,
    {
        self.info.instance_state
    }

    pub fn publication_handle(&self) -> (r: u64)
        ensures
            r == self.info.publication_handle,
    {
        self.info.publication_handle
    }

    pub fn disposed_generation_count(&self) -> (r: u32)
        ensures
            r == self.info.disposed_generation_count,
    {
        self.info.disposed_generation_count
    }

    pub fn no_writers_generation_count(&self) -> (r: u32)
        ensures
            r == self.info.no_writers_generation_count,
    {
        self.info.no_writers_generation_count
    }

    pub fn sample_rank(&self) -> (r: u32)
        ensures
            r == self.info.sample_rank,
    {
        self.info.sample_rank
    }

    pub fn generation_rank(&self) -> (r: u32)
        ensures
            r == self.info.generation_rank,
    {
        self.info.generation_rank
    }

    pub fn absolute_generation_rank(&self) -> (r: u32)
        ensures
            r == self.info.absolute_generation_rank,
    {
        self.info.absolute_generation_rank
    }
}

} // verus!
