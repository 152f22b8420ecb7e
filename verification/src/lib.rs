//! The admission core of a service that resizes, captions and rotates media
//! on request.
//!
//! Requests wait in a first-in, first-out queue ([`queue`]) and are told
//! their position while they wait. A request at the head starts as soon as
//! a permit is free ([`gate`]). Whatever ends a request, its entry leaves the
//! queue once and its permit goes back once. [`ledger`] holds the order of
//! the queue as a sequence and the lemmas about it.
//!
//! Around that core stand the description of the work ([`job`]), the rules
//! that a transform checks before it runs ([`media_helpers`], [`captions`]),
//! the search for media in a channel ([`discovery`]), the judgement of a
//! finished run of the media process ([`ffmpeg_babysitter`]) and the texts
//! shown to the requester ([`progress`], [`error`]).
//!
//! Nothing here waits, sleeps, reads or sends: every function decides on the
//! values it is given, and its contract says what it decides.

pub mod captions;
pub mod discovery;
pub mod error;
pub mod ffmpeg_babysitter;
pub mod gate;
pub mod job;
pub mod ledger;
pub mod media_helpers;
pub mod progress;
pub mod queue;
pub mod text;
