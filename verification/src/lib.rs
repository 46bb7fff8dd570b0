//! The overview screen of a terminal dashboard for a cluster, as data.
//!
//! Every function here turns a snapshot of the application's state and a
//! region of the screen into a description of what is to be drawn there:
//! which regions exist, what text each panel shows and in which tone, and
//! where the text cursor goes. Nothing is drawn here; a caller hands the
//! description to a terminal toolkit.
pub mod cli;
pub mod context;
pub mod filter;
pub mod geometry;
pub mod layout;
pub mod logo;
pub mod namespaces;
pub mod overview;
pub mod state;
pub mod status;
pub mod text;
pub mod widgets;
