//! An in-process key-value storage engine for identity-keyed user records.
//!
//! Three interchangeable backends (a hash index, a sorted dense array and an
//! ordered tree) implement one `Storage` contract, and a `UserRepository`
//! wraps exactly one of them, chosen statically at construction or held
//! behind an indirection for run-time dispatch.  Every backend is verified
//! against the same abstract model: a finite map from record id to record.

pub mod email;
pub mod hash_index;
pub mod laws;
pub mod ordered_tree;
pub mod random;
pub mod repository;
pub mod sorted_array;
pub mod stack;
pub mod storage;
pub mod user;
pub mod workload;
