//! Keeping a message channel in step with a catalog of galleries.
//!
//! The catalog lists galleries; each gallery has a title, tags and pages,
//! and each page shows an image. For every gallery that the catalog lists,
//! the images are re-hosted, an article that shows them is published, and a
//! message that links the article is sent to the channel. A gallery that
//! was announced is looked at again from time to time, and its message is
//! edited when its title or its tags have changed.
//!
//! The library decides and records; it does no outside work. An operation
//! is a task ([`uploader::Task`], [`scan::Scan`], [`batch::Batch`],
//! [`album::AlbumTask`])
//! that says what is to be fetched, posted or sent, and is told what came
//! back. What has been done is kept in the [`store::Store`], so that an
//! operation that is run again does nothing twice.
//!
//! - [`store`], [`table`]: the rows kept of galleries, images, pages,
//!   messages and articles.
//! - [`pipeline`]: the two stages that re-host the images of a gallery.
//! - [`article`], [`message`], [`trans`]: what an article shows and what a
//!   message says.
//! - [`schedule`]: when an announced gallery is looked at again.
//! - [`uploader`], [`scan`], [`batch`], [`laws`]: the operations, the scan
//!   of the catalog, batches of operations, and what holds of every run.
//! - [`page`], [`detail`], [`ehentai`], [`gallery`], [`tags`]: reading the
//!   catalog.
//! - [`catbox`], [`album`]: the image host and its albums.
//! - [`bot`]: keyboards, rankings and links to messages.
//! - [`text`]: strings as sequences of characters.

pub mod album;
pub mod article;
pub mod batch;
pub mod bot;
pub mod catbox;
pub mod detail;
pub mod ehentai;
pub mod gallery;
pub mod laws;
pub mod message;
pub mod page;
pub mod pipeline;
pub mod scan;
pub mod schedule;
pub mod store;
pub mod table;
pub mod tags;
pub mod text;
pub mod trans;
pub mod uploader;
