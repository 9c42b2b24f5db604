//! Transactional deletion of extension nodes from a message-flow graph.
//!
//! A graph owns a sequence of nodes and, optionally, a sequence of
//! connections; each connection carries up to four optional categories of
//! message flows (`cmd`, `data`, `audio_frame`, `video_frame`), and each flow
//! fans out to a list of destinations.  Deleting an extension node removes
//! every node with the target identity, drops connections whose source is the
//! deleted node, strips the node from every destination list, and normalizes
//! away the containers this leaves empty.  The mutation is all-or-nothing: a
//! snapshot taken before the mutation lets the caller restore the graph
//! verbatim when external validation rejects the candidate.

pub mod delete;
pub mod graph;
pub mod laws;
