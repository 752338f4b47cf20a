//! Capture-and-cache orchestration for a chat bot that answers a URL with a
//! rendered image of the page.
//!
//! The crate holds the decisions; the process around it performs the
//! messaging and drives the browser. Its parts:
//!
//! * [`address`] turns the text of a request into the canonical form of an
//!   absolute URL, which is the cache key;
//! * [`cache`] is the bounded, time-limited store of rendered images;
//! * [`in_flight`] is the register of the pages that are being rendered;
//! * [`capture`] sequences one rendering session against the browser engine;
//! * [`handlers`] decides, event by event, what a request does next.

pub mod address;
pub mod cache;
pub mod capture;
pub mod in_flight;
pub mod handlers;
