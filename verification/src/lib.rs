//! Fail-closed X11 facts: pointer capture routing and exact work-area authority.
//!
//! Everything here is decided from plain values that an X11 backend has already read; the
//! requests themselves are made by the caller.

pub mod pointer_facts;
pub mod text;
pub mod work_area;
pub mod authority;
pub mod replies;
pub mod capture;
