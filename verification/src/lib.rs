//! Verified core of a directory-ingestion agent: it watches one folder for
//! newly created files and forwards each one to a remote document-management
//! service over an authenticated HTTP upload endpoint, deleting the local
//! copy only once the remote service has confirmed acceptance.
//!
//! The modules here hold the decision logic — event filtering, request
//! construction, response classification, and the per-file worker protocol —
//! with contracts checked by Verus. The surrounding process (filesystem
//! watching, the HTTP exchange itself, logging) drives this logic from
//! outside.

pub mod event;
pub mod settings;
pub mod upload;
pub mod worker;
