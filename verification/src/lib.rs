//! Rendering core of a polyfill delivery service's landing page: a magnitude
//! formatter for headline figures, an assembler that orders the feature
//! catalog for display, and the composer of the page document.

pub mod decimal;
pub mod magnitude;
pub mod text_order;
pub mod alias_table;
pub mod catalog;
pub mod catalog_laws;
pub mod markup;
pub mod phrases;
pub mod template;
pub mod template_laws;
pub mod text_laws;
pub mod page;
pub mod page_laws;
