//! A conversion facade for two chart grammars, Vega and Vega-Lite.
//!
//! A call runs in two verified halves around one unverified step. The first
//! half takes the caller's text and parameters and either settles the call
//! at once with a tagged failure, or hands back the request that a rendering
//! engine is to carry out. The second half takes what the engine answered and
//! wraps it into the tagged result that the host expects.

pub mod dispatch;
pub mod encode;
pub mod grammar;
pub mod intake;
pub mod laws;
pub mod options;
pub mod outcome;

pub use dispatch::{
    vega_to_html, vega_to_jpeg, vega_to_pdf, vega_to_png, vega_to_svg, vegalite_to_html,
    vegalite_to_jpeg, vegalite_to_pdf, vegalite_to_png, vegalite_to_svg, vegalite_to_vega, Request,
};
pub use encode::{binary_result, document_result, string_result};
pub use grammar::{Format, Grammar, Operation, Payload};
pub use intake::intake;
pub use options::{
    parse_renderer, parse_version, resolve_version, vg_opts, vl_opts, Config, Renderer, Scalar,
    VlVersion,
};
pub use outcome::{
    error_tuple, ok_binary_tuple, ok_string_tuple, Atom, BinaryResultTuple, Either,
    StringResultTuple,
};
