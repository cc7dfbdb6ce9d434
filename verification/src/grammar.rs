//! The closed sets that a call is made of: the two grammars, the six target
//! formats, and which pairs of them are operations.

use vstd::prelude::*;

verus! {

/// The grammar a specification is written in.
#[derive(Clone, Copy, Debug, PartialEq, Eq, Structural)]
pub enum Grammar {
    /// The low-level scene-graph grammar.
    Vega,
    /// The high-level grammar, which compiles to Vega.
    VegaLite,
}

/// What a conversion produces.
#[derive(Clone, Copy, Debug, PartialEq, Eq, Structural)]
pub enum Format {
    /// Vector markup.
    Svg,
    /// A standalone document.
    Html,
    /// A raster image, lossless.
    Png,
    /// A raster image, lossy.
    Jpeg,
    /// A paginated document.
    Pdf,
    /// The compiled Vega specification.
    Vega,
}

/// The kind of payload a successful conversion carries.
#[derive(Clone, Copy, Debug, PartialEq, Eq, Structural)]
pub enum Payload {
    Text,
    Binary,
}

/// Whether converting from `grammar` to `format` is one of the operations.
/// Every pair is, except compiling Vega to itself.
pub open spec fn supported(grammar: Grammar, format: Format) -> bool {
    !(grammar == Grammar::Vega && format == Format::Vega)
}

impl Grammar {
    /// The message that rejects text which is not JSON, naming the grammar
    /// that the text was meant for.
    pub open spec fn invalid_json_message(self) -> Seq<char> {
        match self {
            Grammar::Vega => "Vega spec is not valid JSON"@,
            Grammar::VegaLite => "VegaLite spec is not valid JSON"@,
        }
    }

    /// The message of [`Grammar::invalid_json_message`] as a string.
    pub fn invalid_json(self) -> (message: String)
        ensures
            message@ == self.invalid_json_message(),
    {
        match self {
            Grammar::Vega => "Vega spec is not valid JSON".to_string(),
            Grammar::VegaLite => "VegaLite spec is not valid JSON".to_string(),
        }
    }
}

impl Format {
    /// The payload kind of the format, fixed by the format alone.
    pub open spec fn payload_spec(self) -> Payload {
        match self {
            Format::Png | Format::Jpeg | Format::Pdf => Payload::Binary,
            Format::Svg | Format::Html | Format::Vega => Payload::Text,
        }
    }

    /// The payload kind of the format.
    pub fn payload(self) -> (p: Payload)
        ensures
            p == self.payload_spec(),
    {
        match self {
            Format::Png | Format::Jpeg | Format::Pdf => Payload::Binary,
            Format::Svg | Format::Html | Format::Vega => Payload::Text,
        }
    }
}

/// The operations, one for each supported pair of a grammar and a format.
/// This is the whole dispatch table: there is no other way to reach the
/// engine.
#[derive(Clone, Copy, Debug, PartialEq, Eq, Structural)]
pub enum Operation {
    VegaToSvg,
    VegaToHtml,
    VegaToPng,
    VegaToJpeg,
    VegaToPdf,
    VegaliteToSvg,
    VegaliteToHtml,
    VegaliteToPng,
    VegaliteToJpeg,
    VegaliteToPdf,
    VegaliteToVega,
}

impl Operation {
    /// The grammar that the operation reads.
    pub open spec fn source(self) -> Grammar {
        match self {
            Operation::VegaToSvg
            | Operation::VegaToHtml
            | Operation::VegaToPng
            | Operation::VegaToJpeg
            | Operation::VegaToPdf => Grammar::Vega,
            Operation::VegaliteToSvg
            | Operation::VegaliteToHtml
            | Operation::VegaliteToPng
            | Operation::VegaliteToJpeg
            | Operation::VegaliteToPdf
            | Operation::VegaliteToVega => Grammar::VegaLite,
        }
    }

    /// The format that the operation produces.
    pub open spec fn target(self) -> Format {
        match self {
            Operation::VegaToSvg | Operation::VegaliteToSvg => Format::Svg,
            Operation::VegaToHtml | Operation::VegaliteToHtml => Format::Html,
            Operation::VegaToPng | Operation::VegaliteToPng => Format::Png,
            Operation::VegaToJpeg | Operation::VegaliteToJpeg => Format::Jpeg,
            Operation::VegaToPdf | Operation::VegaliteToPdf => Format::Pdf,
            Operation::VegaliteToVega => Format::Vega,
        }
    }

    /// The operation for a pair, where the pair has one.
    pub open spec fn of(grammar: Grammar, format: Format) -> Option<Operation> {
        match (grammar, format) {
            (Grammar::Vega, Format::Svg) => Some(Operation::VegaToSvg),
            (Grammar::Vega, Format::Html) => Some(Operation::VegaToHtml),
            (Grammar::Vega, Format::Png) => Some(Operation::VegaToPng),
            (Grammar::Vega, Format::Jpeg) => Some(Operation::VegaToJpeg),
            (Grammar::Vega, Format::Pdf) => Some(Operation::VegaToPdf),
            (Grammar::Vega, Format::Vega) => None,
            (Grammar::VegaLite, Format::Svg) => Some(Operation::VegaliteToSvg),
            (Grammar::VegaLite, Format::Html) => Some(Operation::VegaliteToHtml),
            (Grammar::VegaLite, Format::Png) => Some(Operation::VegaliteToPng),
            (Grammar::VegaLite, Format::Jpeg) => Some(Operation::VegaliteToJpeg),
            (Grammar::VegaLite, Format::Pdf) => Some(Operation::VegaliteToPdf),
            (Grammar::VegaLite, Format::Vega) => Some(Operation::VegaliteToVega),
        }
    }

    /// Selects the operation for a pair of a grammar and a format: the one
    /// that reads the grammar and produces the format, or none where the pair
    /// is not supported.
    pub fn select(grammar: Grammar, format: Format) -> (operation: Option<Operation>)
        ensures
            operation == Operation::of(grammar, format),
            operation is Some <==> supported(grammar, format),
            operation is Some ==> operation->Some_0.source() == grammar
                && operation->Some_0.target() == format,
    {
        match (grammar, format) {
            (Grammar::Vega, Format::Svg) => Some(Operation::VegaToSvg),
            (Grammar::Vega, Format::Html) => Some(Operation::VegaToHtml),
            (Grammar::Vega, Format::Png) => Some(Operation::VegaToPng),
            (Grammar::Vega, Format::Jpeg) => Some(Operation::VegaToJpeg),
            (Grammar::Vega, Format::Pdf) => Some(Operation::VegaToPdf),
            (Grammar::Vega, Format::Vega) => None,
            (Grammar::VegaLite, Format::Svg) => Some(Operation::VegaliteToSvg),
            (Grammar::VegaLite, Format::Html) => Some(Operation::VegaliteToHtml),
            (Grammar::VegaLite, Format::Png) => Some(Operation::VegaliteToPng),
            (Grammar::VegaLite, Format::Jpeg) => Some(Operation::VegaliteToJpeg),
            (Grammar::VegaLite, Format::Pdf) => Some(Operation::VegaliteToPdf),
            (Grammar::VegaLite, Format::Vega) => Some(Operation::VegaliteToVega),
        }
    }
}

} // verus!
