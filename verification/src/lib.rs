//! Consistency audit for a distributed-filesystem brick tree.
//!
//! Every directory in a brick carries a 128-bit identifier (GFID) in a
//! reserved extended attribute, and must be reachable through a symbolic
//! link kept in a hashed internal index directory; the link's target
//! encodes the parent directory's identifier.  This library holds the
//! decision logic of the audit: parsing the identifier bytes into their
//! canonical hyphenated form, deriving the hash-index path and the
//! expected link target, and classifying each directory into one of the
//! seven verdicts.  All filesystem reads (extended attributes, symbolic
//! links, the tree walk itself) are performed by the caller, which hands
//! the observed values in as plain data.

pub mod audit;
pub mod identifier;
pub mod paths;
pub mod text;
pub mod verdict;
