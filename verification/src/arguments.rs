//! How the arguments of a stage are derived: for each parameter the
//! caller's override comes first, then the configured value unless it is
//! empty; a parameter that has neither is left out.

use vstd::prelude::*;
use crate::config::{Config, ConfigView, text_view};
use crate::stage::texts;

verus! {

/// How a boolean is written in an argument.
pub open spec fn bool_text(value: bool) -> Seq<char> {
    if value {
        "true"@
    } else {
        "false"@
    }
}

/// The items of a list, separated by commas.
pub open spec fn comma_joined(items: Seq<Seq<char>>) -> Seq<char>
    decreases items.len(),
{
    if items.len() == 0 {
        Seq::empty()
    } else if items.len() == 1 {
        items[0]
    } else {
        comma_joined(items.drop_last()) + ","@ + items.last()
    }
}

/// A configured text counts only where it is not empty.
pub open spec fn configured(value: Option<Seq<char>>) -> Option<Seq<char>> {
    match value {
        Some(text) => if text.len() > 0 {
            Some(text)
        } else {
            None
        },
        None => None,
    }
}

/// The override where there is one, even an empty one, and otherwise the
/// configured value where that is not empty.
pub open spec fn preferred(overriding: Option<Seq<char>>, value: Option<Seq<char>>) -> Option<
    Seq<char>,
> {
    if overriding is Some {
        overriding
    } else {
        configured(value)
    }
}

/// The one argument that gives a parameter its value, or none where the
/// parameter has no value.
pub open spec fn flag(prefix: Seq<char>, value: Option<Seq<char>>) -> Seq<Seq<char>> {
    match value {
        Some(text) => seq![prefix + text],
        None => Seq::empty(),
    }
}

/// The list of formats as one text.
pub open spec fn format_text(format: Option<Seq<Seq<char>>>) -> Option<Seq<char>> {
    match format {
        Some(formats) => Some(comma_joined(formats)),
        None => None,
    }
}

/// The arguments of the collector and of the explainer.
pub open spec fn domain_args(
    config: ConfigView,
    use_mock: Option<bool>,
    project_id: Option<Seq<char>>,
) -> Seq<Seq<char>> {
    seq!["--use_mock="@ + bool_text(use_mock.unwrap_or(config.use_mock))] + flag(
        "--project_id="@,
        preferred(project_id, config.project_id),
    )
}

/// The arguments of the reporter.
pub open spec fn report_args(
    config: ConfigView,
    input_dir: Option<Seq<char>>,
    output_dir: Option<Seq<char>>,
    format: Option<Seq<Seq<char>>>,
) -> Seq<Seq<char>> {
    flag("--input_dir="@, preferred(input_dir, Some(config.data_dir))) + flag(
        "--output_dir="@,
        preferred(output_dir, Some(config.output_dir)),
    ) + flag("--format="@, format_text(format))
}

/// `prefix` followed by `value`.
fn argument(prefix: &str, value: &str) -> (r: String)
    ensures
        r@ == prefix@ + value@,
{
    prefix.to_owned().concat(value)
}

/// The items of `items`, separated by commas.
pub fn join_with_commas(items: &Vec<String>) -> (r: String)
    ensures
        r@ == comma_joined(texts(*items)),
{
    let mut joined = String::new();
    let mut i: usize = 0;
    while i < items.len()
        invariant
            i <= items@.len(),
            joined@ == comma_joined(texts(*items).take(i as int)),
        decreases items@.len() - i,
    {
        let ghost before = texts(*items).take(i as int);
        let ghost after = texts(*items).take(i + 1);
        assert(after.drop_last() == before);
        assert(after.last() == items@[i as int]@);
        if i > 0 {
            joined.append(",");
        }
        joined.append(items[i].as_str());
        assert(joined@ == comma_joined(after)) by {
            if i == 0 {
                assert(before =~= Seq::empty());
                assert(joined@ =~= items@[0]@);
            }
        }
        i += 1;
    }
    assert(texts(*items).take(items@.len() as int) == texts(*items));
    joined
}

/// The views of an optional list of texts.
pub open spec fn list_view(list: Option<Vec<String>>) -> Option<Seq<Seq<char>>> {
    match list {
        Some(items) => Some(texts(items)),
        None => None,
    }
}

/// Adds to `args` the argument for a text parameter, if the parameter has
/// a value.
fn push_flag(args: &mut Vec<String>, prefix: &str, overriding: &Option<String>, value: Option<&str>)
    ensures
        texts(*final(args)) == texts(*old(args)) + flag(
            prefix@,
            preferred(text_view(*overriding), match value {
                Some(v) => Some(v@),
                None => None,
            }),
        ),
{
    let ghost before = texts(*args);
    match overriding {
        Some(text) => {
            args.push(argument(prefix, text.as_str()));
            assert(texts(*args) =~= before + seq![prefix@ + text@]);
        },
        None => match value {
            Some(text) => {
                if !text.is_empty() {
                    args.push(argument(prefix, text));
                    assert(texts(*args) =~= before + seq![prefix@ + text@]);
                } else {
                    assert(texts(*args) =~= before + Seq::<Seq<char>>::empty());
                }
            },
            None => {
                assert(texts(*args) =~= before + Seq::<Seq<char>>::empty());
            },
        },
    }
}

/// Derives the arguments of the collector and of the explainer.
pub fn domain_arguments(config: &Config, use_mock: Option<bool>, project_id: Option<String>) -> (r:
    Vec<String>)
    ensures
        texts(r) == domain_args(config@, use_mock, text_view(project_id)),
{
    let mock = match use_mock {
        Some(m) => m,
        None => config.gcp.use_mock,
    };
    let mut args: Vec<String> = Vec::new();
    args.push(argument("--use_mock=", if mock { "true" } else { "false" }));
    assert(texts(args) =~= seq!["--use_mock="@ + bool_text(mock)]);
    let value = match &config.gcp.project_id {
        Some(id) => Some(id.as_str()),
        None => None,
    };
    push_flag(&mut args, "--project_id=", &project_id, value);
    args
}

/// Derives the arguments of the reporter.
pub fn report_arguments(
    config: &Config,
    input_dir: Option<String>,
    output_dir: Option<String>,
    format: Option<Vec<String>>,
) -> (r: Vec<String>)
    ensures
        texts(r) == report_args(
            config@,
            text_view(input_dir),
            text_view(output_dir),
            list_view(format),
        ),
{
    let mut args: Vec<String> = Vec::new();
    assert(texts(args) =~= Seq::<Seq<char>>::empty());
    push_flag(&mut args, "--input_dir=", &input_dir, Some(config.paths.data_dir.as_str()));
    push_flag(&mut args, "--output_dir=", &output_dir, Some(config.paths.output_dir.as_str()));
    let ghost dirs = texts(args);
    match &format {
        Some(formats) => {
            let list = join_with_commas(formats);
            args.push(argument("--format=", list.as_str()));
            assert(texts(args) =~= dirs + seq!["--format="@ + list@]);
        },
        None => {
            assert(texts(args) =~= dirs + Seq::<Seq<char>>::empty());
        },
    }
    assert(texts(args) =~= report_args(
        config@,
        text_view(input_dir),
        text_view(output_dir),
        list_view(format),
    ));
    args
}

/// An override takes precedence: where the caller gives a parameter, the
/// argument is made from the caller's value, whatever is configured, and
/// even where the caller's value is empty.
pub proof fn lemma_override_takes_precedence(
    config: ConfigView,
    use_mock: bool,
    project_id: Seq<char>,
    input_dir: Seq<char>,
    output_dir: Seq<char>,
    format: Option<Seq<Seq<char>>>,
)
    ensures
        forall|id: Option<Seq<char>>| #[trigger]
            domain_args(config, Some(use_mock), id)[0] == "--use_mock="@ + bool_text(use_mock),
        forall|mock: Option<bool>| #[trigger]
            domain_args(config, mock, Some(project_id)).len() == 2 && domain_args(
                config,
                mock,
                Some(project_id),
            )[1] == "--project_id="@ + project_id,
        preferred(Some(input_dir), Some(config.data_dir)) == Some(input_dir),
        preferred(Some(output_dir), Some(config.output_dir)) == Some(output_dir),
        report_args(config, Some(input_dir), Some(output_dir), format) == seq![
            "--input_dir="@ + input_dir,
            "--output_dir="@ + output_dir,
        ] + flag("--format="@, format_text(format)),
{
    assert(report_args(config, Some(input_dir), Some(output_dir), format) =~= seq![
        "--input_dir="@ + input_dir,
        "--output_dir="@ + output_dir,
    ] + flag("--format="@, format_text(format)));
}

/// A parameter that the caller leaves open is taken from the
/// configuration, and is left out where the configuration has no value
/// for it or an empty one.
pub proof fn lemma_configuration_fills_in(config: ConfigView)
    ensures
        domain_args(config, None, None)[0] == "--use_mock="@ + bool_text(config.use_mock),
        configured(config.project_id) matches Some(id) ==> domain_args(config, None, None) == seq![
            "--use_mock="@ + bool_text(config.use_mock),
            "--project_id="@ + id,
        ],
        configured(config.project_id) is None ==> domain_args(config, None, None) == seq![
            "--use_mock="@ + bool_text(config.use_mock),
        ],
        report_args(config, None, None, None) == flag(
            "--input_dir="@,
            configured(Some(config.data_dir)),
        ) + flag("--output_dir="@, configured(Some(config.output_dir))),
        config.data_dir.len() == 0 && config.output_dir.len() == 0 ==> report_args(
            config,
            None,
            None,
            None,
        ).len() == 0,
{
    assert(configured(config.project_id) matches Some(id) ==> domain_args(config, None, None)
        =~= seq!["--use_mock="@ + bool_text(config.use_mock), "--project_id="@ + id]);
    assert(configured(config.project_id) is None ==> domain_args(config, None, None) =~= seq![
        "--use_mock="@ + bool_text(config.use_mock),
    ]);
    assert(report_args(config, None, None, None) =~= flag(
        "--input_dir="@,
        configured(Some(config.data_dir)),
    ) + flag("--output_dir="@, configured(Some(config.output_dir))));
}

} // verus!
