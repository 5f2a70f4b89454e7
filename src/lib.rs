//! Discovery and batch conversion of raster images: finds candidate images
//! under chosen files and directories, gives each a stable identity from its
//! path, confirms its type from its content, decodes it to RGBA, and plans
//! where each converted file goes so that conversion and a later resume agree.
//! Reading directories and files, encoding and writing are left to the caller.

pub mod classify;
pub mod convert;
pub mod discover;
pub mod identity;
pub mod raster;
pub mod sniff;
