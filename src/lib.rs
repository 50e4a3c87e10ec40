//! Job supervision and progress distribution for a media-fetching service.
//!
//! A client submits a URL ([`job`]); the job is registered ([`registry`],
//! [`service`]) and an external downloader runs under a [`supervisor`], a
//! state machine that classifies the downloader's output lines
//! ([`classify`]) into [`event`]s, publishes them on the job's hub, and ends
//! every job with exactly one terminal event. Observers relay the events as
//! server-sent-event frames ([`relay`]); the produced file is found, served
//! and eventually deleted ([`artifact`], [`sweeper`]). Callers authenticate
//! with bearer tokens ([`auth`]).

pub mod artifact;
pub mod auth;
pub mod classify;
pub mod event;
pub mod job;
pub mod registry;
pub mod relay;
pub mod service;
pub mod supervisor;
pub mod sweeper;
pub mod text;
