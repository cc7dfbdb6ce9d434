//! The operations: one for each pair of a grammar and a target format.
//!
//! An operation reads the specification, resolves its parameters and returns
//! the next step of the call. `Err` settles the call: it holds the failure to
//! return, and the engine is not to be asked. `Ok` holds the request for the
//! engine, whose answer the encoders then wrap.

use vstd::prelude::*;

use crate::grammar::{supported, Format, Grammar, Operation};
use crate::intake::{intake, json_document};
use crate::options::{
    invalid_renderer_message, parse_renderer, renderer_named, resolve_version, vg_opts, vl_opts,
    Config, Scalar, VlVersion,
};
use crate::outcome::{error_tuple, Either, StringResultTuple, Tagged};

verus! {

/// One call to the engine: what to convert, into what, and how.
#[derive(Debug, PartialEq)]
pub struct Request {
    /// The grammar of the document.
    pub grammar: Grammar,
    /// The format to produce.
    pub format: Format,
    /// The parsed specification.
    pub document: serde_json::Value,
    /// The resolved options.
    pub config: Config,
}

impl Request {
    /// Whether the request is one the engine has an operation for, with the
    /// options of that operation.
    pub open spec fn well_formed(self) -> bool {
        &&& supported(self.grammar, self.format)
        &&& self.config.fits(self.grammar, self.format)
    }

    /// The engine operation that carries the request out. A well-formed
    /// request always has one, and it is the one for the request's own
    /// grammar and format.
    pub fn operation(&self) -> (operation: Option<Operation>)
        ensures
            operation == Operation::of(self.grammar, self.format),
            self.well_formed() ==> operation is Some,
    {
        Operation::select(self.grammar, self.format)
    }

    /// The same request compiled with the release that `name` resolves to.
    /// A request from Vega has no release and stays as it is.
    pub fn with_version(self, name: &str) -> (request: Request)
        ensures
            request == (Request {
                config: self.config.versioned(VlVersion::resolved(name@)),
                ..self
            }),
            self.well_formed() ==> request.well_formed(),
    {
        let config = self.config.with_version(resolve_version(name));
        Request { grammar: self.grammar, format: self.format, document: self.document, config }
    }
}

/// A step by its content: the request, or the failure that settles the call.
pub open spec fn settled<E: View<V = Tagged>>(step: Result<Request, E>) -> Result<
    Request,
    Tagged,
> {
    match step {
        Ok(request) => Ok(request),
        Err(failure) => Err(failure@),
    }
}

/// The step of a conversion from `grammar` to `format` of the specification
/// `text` under `config`. Text that is not JSON settles the call with the
/// failure that names the grammar; any other text goes to the engine as the
/// document it parses to.
pub open spec fn planned(grammar: Grammar, format: Format, text: Seq<char>, config: Config)
    -> Result<Request, Tagged> {
    match json_document(text) {
        Some(document) => Ok(Request { grammar, format, document, config }),
        None => Err(Tagged::failure(grammar.invalid_json_message())),
    }
}

/// The step of a conversion to a standalone document. The specification is
/// read first; then a renderer name that is not known settles the call.
pub open spec fn planned_html(grammar: Grammar, text: Seq<char>, bundle: bool, renderer: Seq<char>)
    -> Result<Request, Tagged> {
    match renderer_named(renderer) {
        Some(known) => planned(grammar, Format::Html, text, Config::base(grammar).html(bundle, known)),
        None => if json_document(text) is Some {
            Err(Tagged::failure(invalid_renderer_message()))
        } else {
            Err(Tagged::failure(grammar.invalid_json_message()))
        },
    }
}

/// Reads `text` and pairs the document with `config`.
fn prepare(grammar: Grammar, format: Format, text: &str, config: Config) -> (step: Result<
    Request,
    StringResultTuple,
>)
    requires
        supported(grammar, format),
        config.fits(grammar, format),
    ensures
        settled(step) == planned(grammar, format, text@, config),
        step is Ok ==> step->Ok_0.well_formed(),
{
    match intake(grammar, text) {
        Ok(document) => Ok(Request { grammar, format, document, config }),
        Err(failure) => Err(failure),
    }
}

/// The same step for an operation whose result is an [`Either`].
fn prepare_binary(grammar: Grammar, format: Format, text: &str, config: Config) -> (step: Result<
    Request,
    Either,
>)
    requires
        supported(grammar, format),
        config.fits(grammar, format),
    ensures
        settled(step) == planned(grammar, format, text@, config),
        step is Ok ==> step->Ok_0.well_formed(),
{
    match prepare(grammar, format, text, config) {
        Ok(request) => Ok(request),
        Err(failure) => Err(Either::StringTuple(failure)),
    }
}

/// The starting options of a conversion from `grammar`.
fn base_opts(grammar: Grammar) -> (config: Config)
    ensures
        config == Config::base(grammar),
{
    match grammar {
        Grammar::Vega => vg_opts(),
        Grammar::VegaLite => vl_opts(),
    }
}

/// Reads `text`, then resolves the renderer.
fn prepare_html(grammar: Grammar, text: &str, bundle: bool, renderer: &str) -> (step: Result<
    Request,
    StringResultTuple,
>)
    ensures
        settled(step) == planned_html(grammar, text@, bundle, renderer@),
        step is Ok ==> step->Ok_0.well_formed(),
{
    let document = match intake(grammar, text) {
        Ok(document) => document,
        Err(failure) => {
            return Err(failure);
        },
    };
    let known = match parse_renderer(renderer) {
        Some(known) => known,
        None => {
            return Err(error_tuple("Invalid renderer provided".to_string()));
        },
    };
    let config = base_opts(grammar).with_html(bundle, known);
    Ok(Request { grammar, format: Format::Html, document, config })
}

/// Vega to vector markup.
pub fn vega_to_svg(vega_spec: String) -> (step: Result<Request, StringResultTuple>)
    ensures
        settled(step) == planned(Grammar::Vega, Format::Svg, vega_spec@, Config::vega()),
        step is Ok ==> step->Ok_0.well_formed(),
{
    prepare(Grammar::Vega, Format::Svg, vega_spec.as_str(), vg_opts())
}

/// Vega to a standalone document, which embeds its dependencies if `bundle`
/// is set and draws with the renderer that `renderer` names.
pub fn vega_to_html(vega_spec: String, bundle: bool, renderer: String) -> (step: Result<
    Request,
    StringResultTuple,
>)
    ensures
        settled(step) == planned_html(Grammar::Vega, vega_spec@, bundle, renderer@),
        step is Ok ==> step->Ok_0.well_formed(),
{
    prepare_html(Grammar::Vega, vega_spec.as_str(), bundle, renderer.as_str())
}

/// Vega to a lossless raster image at the given scale and pixel density.
pub fn vega_to_png(vega_spec: String, scale: Scalar, ppi: Scalar) -> (step: Result<
    Request,
    Either,
>)
    ensures
        settled(step) == planned(
            Grammar::Vega,
            Format::Png,
            vega_spec@,
            Config::vega().png(scale, ppi),
        ),
        step is Ok ==> step->Ok_0.well_formed(),
{
    prepare_binary(Grammar::Vega, Format::Png, vega_spec.as_str(), vg_opts().with_png(scale, ppi))
}

/// Vega to a lossy raster image at the given scale and quality.
pub fn vega_to_jpeg(vega_spec: String, scale: Scalar, quality: u8) -> (step: Result<
    Request,
    Either,
>)
    ensures
        settled(step) == planned(
            Grammar::Vega,
            Format::Jpeg,
            vega_spec@,
            Config::vega().jpeg(scale, quality),
        ),
        step is Ok ==> step->Ok_0.well_formed(),
{
    prepare_binary(
        Grammar::Vega,
        Format::Jpeg,
        vega_spec.as_str(),
        vg_opts().with_jpeg(scale, quality),
    )
}

/// Vega to a paginated document.
pub fn vega_to_pdf(vega_spec: String) -> (step: Result<Request, Either>)
    ensures
        settled(step) == planned(Grammar::Vega, Format::Pdf, vega_spec@, Config::vega()),
        step is Ok ==> step->Ok_0.well_formed(),
{
    prepare_binary(Grammar::Vega, Format::Pdf, vega_spec.as_str(), vg_opts())
}

/// Vega-Lite to vector markup.
pub fn vegalite_to_svg(vega_lite_spec: String) -> (step: Result<Request, StringResultTuple>)
    ensures
        settled(step) == planned(
            Grammar::VegaLite,
            Format::Svg,
            vega_lite_spec@,
            Config::vega_lite(),
        ),
        step is Ok ==> step->Ok_0.well_formed(),
{
    prepare(Grammar::VegaLite, Format::Svg, vega_lite_spec.as_str(), vl_opts())
}

/// Vega-Lite to a standalone document, which embeds its dependencies if
/// `bundle` is set and draws with the renderer that `renderer` names.
pub fn vegalite_to_html(vega_lite_spec: String, bundle: bool, renderer: String) -> (step: Result<
    Request,
    StringResultTuple,
>)
    ensures
        settled(step) == planned_html(Grammar::VegaLite, vega_lite_spec@, bundle, renderer@),
        step is Ok ==> step->Ok_0.well_formed(),
{
    prepare_html(Grammar::VegaLite, vega_lite_spec.as_str(), bundle, renderer.as_str())
}

/// Vega-Lite to a lossless raster image at the given scale and pixel density.
pub fn vegalite_to_png(vega_lite_spec: String, scale: Scalar, ppi: Scalar) -> (step: Result<
    Request,
    Either,
>)
    ensures
        settled(step) == planned(
            Grammar::VegaLite,
            Format::Png,
            vega_lite_spec@,
            Config::vega_lite().png(scale, ppi),
        ),
        step is Ok ==> step->Ok_0.well_formed(),
{
    prepare_binary(
        Grammar::VegaLite,
        Format::Png,
        vega_lite_spec.as_str(),
        vl_opts().with_png(scale, ppi),
    )
}

/// Vega-Lite to a lossy raster image at the given scale and quality.
pub fn vegalite_to_jpeg(vega_lite_spec: String, scale: Scalar, quality: u8) -> (step: Result<
    Request,
    Either,
>)
    ensures
        settled(step) == planned(
            Grammar::VegaLite,
            Format::Jpeg,
            vega_lite_spec@,
            Config::vega_lite().jpeg(scale, quality),
        ),
        step is Ok ==> step->Ok_0.well_formed(),
{
    prepare_binary(
        Grammar::VegaLite,
        Format::Jpeg,
        vega_lite_spec.as_str(),
        vl_opts().with_jpeg(scale, quality),
    )
}

/// Vega-Lite to a paginated document.
pub fn vegalite_to_pdf(vega_lite_spec: String) -> (step: Result<Request, Either>)
    ensures
        settled(step) == planned(
            Grammar::VegaLite,
            Format::Pdf,
            vega_lite_spec@,
            Config::vega_lite(),
        ),
        step is Ok ==> step->Ok_0.well_formed(),
{
    prepare_binary(Grammar::VegaLite, Format::Pdf, vega_lite_spec.as_str(), vl_opts())
}

/// Vega-Lite to the Vega specification it compiles to.
pub fn vegalite_to_vega(vega_lite_spec: String) -> (step: Result<Request, StringResultTuple>)
    ensures
        settled(step) == planned(
            Grammar::VegaLite,
            Format::Vega,
            vega_lite_spec@,
            Config::vega_lite(),
        ),
        step is Ok ==> step->Ok_0.well_formed(),
{
    prepare(Grammar::VegaLite, Format::Vega, vega_lite_spec.as_str(), vl_opts())
}

} // verus!
