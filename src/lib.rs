//! The bearcove company page: its content as data, an HTML renderer whose
//! output is specified character for character, and a type scale from which
//! the responsive font rules of the stylesheet are generated.

/// Rendering documents to HTML.
pub mod markup;
/// The content model: links, rich text, lists, sections and documents.
pub mod model;
/// The bearcove page's content, type scale and head links.
pub mod site;
/// Font sizes by viewport and stylesheet generation.
pub mod style;
