//! Step-by-step annotation of the images in a folder: each image can be marked
//! correct or incorrect (or left unmarked), and the marks of a folder are kept
//! in an annotation store that can be exported.
//!
//! The library holds the state of the session and the rules by which messages
//! change it; the windowing, the folder dialog and the file output live
//! around it.

pub mod text;
pub mod render_image;
pub mod img_visualizer;
pub mod laws;
