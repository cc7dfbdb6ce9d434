//! What holds of the operations and the encoders taken together.

use vstd::prelude::*;

use crate::dispatch::{planned, planned_html, Request};
use crate::encode::{binary_encoding, text_encoding};
use crate::grammar::{supported, Format, Grammar, Operation, Payload};
use crate::intake::is_json;
use crate::options::{
    invalid_renderer_message, renderer_named, version_named, Config, Renderer, Scalar, VlVersion,
};
use crate::outcome::{Atom, Tagged};

verus! {

/// The two messages that reject text which is not JSON differ, so a failure
/// tells which grammar the text was read for.
pub proof fn invalid_json_message_names_the_grammar()
    ensures
        Grammar::Vega.invalid_json_message() != Grammar::VegaLite.invalid_json_message(),
{
    reveal_strlit("Vega spec is not valid JSON");
    reveal_strlit("VegaLite spec is not valid JSON");
    assert("Vega spec is not valid JSON"@.len() != "VegaLite spec is not valid JSON"@.len());
}

/// Text that is not JSON settles every conversion before the engine is
/// asked: the step is the failure that names the grammar, whatever the
/// format and the options.
pub proof fn invalid_text_is_refused(
    grammar: Grammar,
    format: Format,
    text: Seq<char>,
    config: Config,
)
    requires
        !is_json(text),
    ensures
        planned(grammar, format, text, config) == Err::<Request, Tagged>(
            Tagged::failure(grammar.invalid_json_message()),
        ),
{
}

/// Text that is not JSON settles a conversion to a standalone document in
/// the same way, whatever the renderer name.
pub proof fn invalid_text_is_refused_for_html(
    grammar: Grammar,
    text: Seq<char>,
    bundle: bool,
    renderer: Seq<char>,
)
    requires
        !is_json(text),
    ensures
        planned_html(grammar, text, bundle, renderer) == Err::<Request, Tagged>(
            Tagged::failure(grammar.invalid_json_message()),
        ),
{
}

/// A renderer name that is not known settles a conversion to a standalone
/// document before the engine is asked. Where the specification itself is
/// JSON, the failure says that the renderer is invalid.
pub proof fn unknown_renderer_is_refused(
    grammar: Grammar,
    text: Seq<char>,
    bundle: bool,
    renderer: Seq<char>,
)
    requires
        renderer_named(renderer) is None,
    ensures
        planned_html(grammar, text, bundle, renderer) is Err,
        is_json(text) ==> planned_html(grammar, text, bundle, renderer) == Err::<Request, Tagged>(
            Tagged::failure(invalid_renderer_message()),
        ),
{
}

/// A specification that is JSON, with a renderer that is known where one is
/// asked for, always reaches the engine: nothing else is judged locally.
pub proof fn valid_input_reaches_the_engine(
    grammar: Grammar,
    format: Format,
    text: Seq<char>,
    config: Config,
    bundle: bool,
    renderer: Seq<char>,
)
    requires
        is_json(text),
    ensures
        planned(grammar, format, text, config) is Ok,
        renderer_named(renderer) is Some ==> planned_html(grammar, text, bundle, renderer) is Ok,
{
}

/// The numbers of a raster conversion reach the engine as the caller gave
/// them, whatever their value: no scale, density or quality is refused or
/// changed locally.
pub proof fn numbers_pass_unchanged(
    grammar: Grammar,
    text: Seq<char>,
    scale: Scalar,
    ppi: Scalar,
    quality: u8,
)
    requires
        is_json(text),
    ensures
        planned(grammar, Format::Png, text, Config::base(grammar).png(scale, ppi)) is Ok,
        planned(
            grammar,
            Format::Png,
            text,
            Config::base(grammar).png(scale, ppi),
        )->Ok_0.config.scale == Some(scale),
        planned(
            grammar,
            Format::Png,
            text,
            Config::base(grammar).png(scale, ppi),
        )->Ok_0.config.ppi == Some(ppi),
        planned(grammar, Format::Jpeg, text, Config::base(grammar).jpeg(scale, quality)) is Ok,
        planned(
            grammar,
            Format::Jpeg,
            text,
            Config::base(grammar).jpeg(scale, quality),
        )->Ok_0.config.scale == Some(scale),
        planned(
            grammar,
            Format::Jpeg,
            text,
            Config::base(grammar).jpeg(scale, quality),
        )->Ok_0.config.quality == Some(quality),
{
}

/// Every set of options that an operation builds fits its operation.
pub proof fn built_options_fit(
    grammar: Grammar,
    bundle: bool,
    renderer: Renderer,
    scale: Scalar,
    ppi: Scalar,
    quality: u8,
    version: VlVersion,
)
    ensures
        Config::base(grammar).fits(grammar, Format::Svg),
        Config::base(grammar).fits(grammar, Format::Pdf),
        Config::base(grammar).fits(grammar, Format::Vega),
        Config::base(grammar).html(bundle, renderer).fits(grammar, Format::Html),
        Config::base(grammar).png(scale, ppi).fits(grammar, Format::Png),
        Config::base(grammar).jpeg(scale, quality).fits(grammar, Format::Jpeg),
        forall|config: Config, format: Format|
            config.fits(grammar, format) ==> #[trigger] config.versioned(version).fits(
                grammar,
                format,
            ),
{
}

/// A version name that is not known is no failure: it resolves to the
/// default release, and a known one to the release it names.
pub proof fn unknown_version_is_the_default(name: Seq<char>)
    ensures
        version_named(name) is None ==> VlVersion::resolved(name) == VlVersion::latest(),
        version_named(name) is Some ==> VlVersion::resolved(name) == version_named(name)->Some_0,
{
}

/// A binary operation ends in exactly one of two results: bytes marked as
/// success, or a message marked as failure. Which one is decided by the
/// engine's answer alone, and the payload is that answer untouched, so the
/// bytes of a success are non-empty whenever the engine's are.
pub proof fn binary_result_is_bytes_or_message(outcome: Result<Seq<u8>, Seq<char>>)
    ensures
        binary_encoding(outcome).binary_shaped(),
        outcome is Ok <==> binary_encoding(outcome) is Binary,
        outcome is Err <==> binary_encoding(outcome) is Text,
        outcome is Ok <==> binary_encoding(outcome).marker() == Atom::Success,
        outcome is Ok ==> binary_encoding(outcome)->Binary_1 == outcome->Ok_0,
        outcome is Ok && outcome->Ok_0.len() > 0 ==> binary_encoding(outcome)->Binary_1.len() > 0,
        outcome is Err ==> binary_encoding(outcome)->Text_1 == outcome->Err_0,
{
}

/// A text operation ends in text either way, and the marker alone tells a
/// success from a failure: the engine's message is returned word for word.
pub proof fn text_result_is_text(outcome: Result<Seq<char>, Seq<char>>)
    ensures
        text_encoding(outcome) is Text,
        outcome is Ok <==> text_encoding(outcome).marker() == Atom::Success,
        outcome is Ok ==> text_encoding(outcome)->Text_1 == outcome->Ok_0,
        outcome is Err ==> text_encoding(outcome)->Text_1 == outcome->Err_0,
{
}

/// A failure that settles a call locally has the shape that both kinds of
/// operation return for a failure: text under the failure marker.
pub proof fn local_failure_is_a_failure(
    grammar: Grammar,
    format: Format,
    text: Seq<char>,
    config: Config,
    bundle: bool,
    renderer: Seq<char>,
)
    ensures
        planned(grammar, format, text, config) is Err ==> {
            &&& planned(grammar, format, text, config)->Err_0.marker() == Atom::Failure
            &&& planned(grammar, format, text, config)->Err_0.binary_shaped()
        },
        planned_html(grammar, text, bundle, renderer) is Err ==> planned_html(
            grammar,
            text,
            bundle,
            renderer,
        )->Err_0.marker() == Atom::Failure,
{
}

/// The operations and the supported pairs correspond one to one: selecting
/// by an operation's own grammar and format gives that operation back, and
/// no two operations share a pair.
pub proof fn dispatch_is_one_to_one(a: Operation, b: Operation)
    ensures
        supported(a.source(), a.target()),
        Operation::of(a.source(), a.target()) == Some(a),
        a.source() == b.source() && a.target() == b.target() ==> a == b,
{
}

/// The payload kind of a result is fixed by the format: the raster and
/// paginated formats are binary, the others text. Every pair of a grammar
/// and a format is an operation except compiling Vega to Vega.
pub proof fn payload_is_fixed_by_format(grammar: Grammar, format: Format)
    ensures
        format.payload_spec() == Payload::Binary <==> (format == Format::Png || format
            == Format::Jpeg || format == Format::Pdf),
        supported(grammar, format) <==> (grammar == Grammar::VegaLite || format != Format::Vega),
{
}

} // verus!
