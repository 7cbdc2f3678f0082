//! Decoders for SEC EDGAR filing documents.
//!
//! The library turns a parsed XML element tree into typed records for the
//! document families EDGAR serves: XBRL instance documents (contexts, units,
//! dimensionally tagged facts), combined ownership reports (Forms 3/4/5),
//! Form 13F holdings reports, and the Atom/RSS filing feeds. The tree itself
//! comes from the XML reader behind [`reader::parse_tree`]; everything after
//! that point is verified against the specification functions each module
//! states.

pub mod error;
pub mod feeds;
pub mod ownership;
pub mod press_feed;
pub mod reader;
pub mod text;
pub mod thirteenf;
pub mod value;
pub mod xbrl;
pub mod xml;
