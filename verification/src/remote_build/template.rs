//! The manifest of a build job: what the template is rendered with, and the
//! job that the rendered text describes.
use crate::remote_build::manager::job_name;
use crate::remote_build::manager::BuildError;
use crate::remote_build::manager::BuildManager;
use handlebars::Handlebars;
use handlebars::RenderError;
use k8s_openapi::api::batch::v1::Job;
use vstd::prelude::*;
use vstd::string::StringExecFns;

verus! {

/// A job of the cluster, as `k8s_openapi` describes it. Opaque here.
#[verifier::external_type_specification]
#[verifier::external_body]
pub struct ExJob(Job);

/// The error of `handlebars` when a template cannot be rendered. Opaque here.
#[verifier::external_type_specification]
#[verifier::external_body]
pub struct ExRenderError(RenderError);

/// The error of `serde_yaml` when a text cannot be read. Opaque here.
#[verifier::external_type_specification]
#[verifier::external_body]
pub struct ExYamlError(serde_yaml::Error);

/// A value that a template is rendered with.
#[derive(Debug)]
pub enum TemplateValue {
    /// A text.
    Text(String),
    /// A number.
    Number(u64),
    /// No value.
    Null,
}

/// A named value that a template is rendered with.
#[derive(Debug)]
pub struct TemplateField {
    /// Name under which the template refers to the value.
    pub name: String,
    /// The value.
    pub value: TemplateValue,
}

/// The mathematical form of a `TemplateValue`.
pub enum TemplateValueView {
    /// A text.
    Text(Seq<char>),
    /// A number.
    Number(u64),
    /// No value.
    Null,
}

/// The mathematical form of a `TemplateField`.
pub struct TemplateFieldView {
    /// Name under which the template refers to the value.
    pub name: Seq<char>,
    /// The value.
    pub value: TemplateValueView,
}

impl View for TemplateValue {
    type V = TemplateValueView;

    open spec fn view(&self) -> TemplateValueView {
        match self {
            TemplateValue::Text(t) => TemplateValueView::Text(t@),
            TemplateValue::Number(n) => TemplateValueView::Number(*n),
            TemplateValue::Null => TemplateValueView::Null,
        }
    }
}

impl View for TemplateField {
    type V = TemplateFieldView;

    open spec fn view(&self) -> TemplateFieldView {
        TemplateFieldView { name: self.name@, value: self.value@ }
    }
}

/// The mathematical form of a list of fields.
pub open spec fn fields_view(fields: Seq<TemplateField>) -> Seq<TemplateFieldView> {
    fields.map_values(|f: TemplateField| f@)
}

/// Whether `c` may stand between the braces that open a tag and the sign of a
/// partial: a sign that trims white space, the sign of a block, or white space.
pub open spec fn is_tag_filler(c: char) -> bool {
    c == '~' || c == '#' || c == ' ' || c == '\t' || c == '\n' || c == '\r'
}

/// Whether two opening braces stand at `at` and nothing but fillers stands
/// between them and `mark`.
pub open spec fn tag_open(template: Seq<char>, at: int, mark: int) -> bool {
    &&& 0 <= at
    &&& at + 2 <= mark <= template.len()
    &&& template[at] == '{'
    &&& template[at + 1] == '{'
    &&& forall|k: int| at + 2 <= k < mark ==> is_tag_filler(#[trigger] template[k])
}

/// Whether the tag that opens at `at` includes a partial with the sign at
/// `mark`.
pub open spec fn partial_at(template: Seq<char>, at: int, mark: int) -> bool {
    tag_open(template, at, mark) && mark < template.len() && template[mark] == '>'
}

/// Whether `template` includes a partial somewhere: a tag whose first sign,
/// after fillers, is `>`. A text without such a tag includes no other template
/// and so cannot include itself.
pub open spec fn includes_partial(template: Seq<char>) -> bool {
    exists|at: int, mark: int| #[trigger] partial_at(template, at, mark)
}

/// The most signs that open a nested part which a template may hold.
pub const TEMPLATE_NESTING_LIMIT: usize = 1024;

/// Whether `c` can open a nested part of a template: a brace, the sign of a
/// block, a parenthesis or a bracket.
pub open spec fn is_nesting_sign(c: char) -> bool {
    c == '{' || c == '#' || c == '(' || c == '['
}

/// How many signs in `template` can open a nested part. No part of the
/// template is nested deeper than this.
pub open spec fn nesting_signs(template: Seq<char>) -> nat
    decreases template.len(),
{
    if template.len() == 0 {
        0
    } else {
        nesting_signs(template.drop_last()) + if is_nesting_sign(template.last()) {
            1nat
        } else {
            0nat
        }
    }
}

/// Whether `template` is handed to the renderer: it includes no partial and
/// holds no more nesting signs than the limit.
pub open spec fn renderable(template: Seq<char>) -> bool {
    !includes_partial(template) && nesting_signs(template) <= TEMPLATE_NESTING_LIMIT
}

/// The text that `handlebars` renders from `template` with the values of
/// `fields`; none where rendering fails.
pub uninterp spec fn rendered_template(
    template: Seq<char>,
    fields: Seq<TemplateFieldView>,
) -> Option<Seq<char>>;

/// The job that `serde_yaml` reads from `manifest`, or its error.
pub uninterp spec fn parsed_job_manifest(manifest: Seq<char>) -> Result<Job, serde_yaml::Error>;

/// The text with which `serde_yaml` describes an error.
pub uninterp spec fn yaml_error_text(error: serde_yaml::Error) -> Seq<char>;

/// Calls `handlebars::Handlebars::render_template` on a new registry, with a
/// JSON object that holds each field under its name: a text as a string, a
/// number as a number, no value as null.
///
/// Trusted: for a renderable template the call returns; whether rendering
/// succeeds, and the text it then yields, depend on the template and the fields
/// alone. Nothing is claimed of the error. Two kinds of template are left out:
/// one that includes a partial, since a partial that includes itself is expanded
/// without end; and one with more nesting signs than the limit, since the parser
/// and the renderer descend once for each level of nesting.
#[verifier::external_body]
fn render_template(template: &str, fields: &Vec<TemplateField>) -> (r: Result<String, RenderError>)
    requires
        renderable(template@),
    ensures
        match r {
            Ok(text) => rendered_template(template@, fields_view(fields@)) == Some(text@),
            Err(e) => rendered_template(template@, fields_view(fields@)) is None,
        },
{
    let data: serde_json::Map<String, serde_json::Value> = fields.iter().map(
        |f| (f.name.clone(), match &f.value {
            TemplateValue::Text(t) => serde_json::Value::String(t.clone()),
            TemplateValue::Number(n) => serde_json::Value::from(*n),
            TemplateValue::Null => serde_json::Value::Null,
        }),
    ).collect();
    Handlebars::new().render_template(template, &data)
}

/// Calls `to_string` on a render error of `handlebars`. Nothing is claimed of
/// the text.
#[verifier::external_body]
fn describe_render_error(error: &RenderError) -> (text: String) {
    error.to_string()
}

/// Calls `serde_yaml::from_str` for a job of `k8s_openapi`.
///
/// Trusted: the outcome depends on the text alone.
#[verifier::external_body]
fn parse_job_manifest(manifest: &str) -> (r: Result<Job, serde_yaml::Error>)
    ensures
        r == parsed_job_manifest(manifest@),
{
    serde_yaml::from_str(manifest)
}

/// Calls `to_string` on an error of `serde_yaml`.
///
/// Trusted: the text depends on the error alone.
#[verifier::external_body]
fn describe_yaml_error(error: &serde_yaml::Error) -> (text: String)
    ensures
        text@ == yaml_error_text(*error),
{
    error.to_string()
}

/// Whether `c` may stand between the braces that open a tag and the sign of a
/// partial.
fn tag_filler(c: char) -> (yes: bool)
    ensures
        yes == is_tag_filler(c),
{
    c == '~' || c == '#' || c == ' ' || c == '\t' || c == '\n' || c == '\r'
}

/// Whether `template` includes a partial somewhere.
pub fn template_includes_partial(template: &str) -> (found: bool)
    ensures
        found == includes_partial(template@),
{
    let ghost text = template@;
    let mut open = false;
    let mut brace = false;
    for c in it: template.chars()
        invariant
            it.seq() == text,
            text == template@,
            brace == (it.index() > 0 && text[it.index() - 1] == '{'),
            open == (exists|at: int| #[trigger] tag_open(text, at, it.index() as int)),
            forall|at: int, mark: int|
                mark < it.index() ==> !#[trigger] partial_at(text, at, mark),
    {
        let ghost i = it.index() as int;
        assert(c == text[i]);
        if open && c == '>' {
            proof {
                let at = choose|at: int| #[trigger] tag_open(text, at, i);
                assert(partial_at(text, at, i));
            }
            return true;
        }
        let next_open = (open && tag_filler(c)) || (brace && c == '{');
        proof {
            let next: int = i + 1;
            if next_open {
                if brace && c == '{' {
                    assert(tag_open(text, i - 1, next));
                } else {
                    let at = choose|at: int| #[trigger] tag_open(text, at, i);
                    assert(tag_open(text, at, next));
                }
            } else {
                assert forall|at: int| !#[trigger] tag_open(text, at, next) by {
                    if tag_open(text, at, next) {
                        if at + 2 == next {
                            assert(text[at] == '{' && text[at + 1] == '{');
                        } else {
                            assert(is_tag_filler(text[i]));
                            assert(tag_open(text, at, i));
                        }
                    }
                }
            }
            assert forall|at: int, mark: int| mark < next implies !#[trigger] partial_at(
                text,
                at,
                mark,
            ) by {
                if mark == i && partial_at(text, at, mark) {
                    assert(tag_open(text, at, i));
                }
            }
        }
        open = next_open;
        brace = c == '{';
    }
    false
}

/// The nesting signs of a part of a template are no more than those of all.
proof fn lemma_nesting_signs_grow(template: Seq<char>, n: int)
    requires
        0 <= n <= template.len(),
    ensures
        nesting_signs(template.take(n)) <= nesting_signs(template),
    decreases template.len(),
{
    if n < template.len() {
        lemma_nesting_signs_grow(template.drop_last(), n);
        assert(template.drop_last().take(n) =~= template.take(n));
    } else {
        assert(template.take(n) =~= template);
    }
}

/// Whether `template` holds no more nesting signs than the limit.
pub fn template_nests_within_limit(template: &str) -> (within: bool)
    ensures
        within == (nesting_signs(template@) <= TEMPLATE_NESTING_LIMIT),
{
    let ghost text = template@;
    let mut signs: usize = 0;
    for c in it: template.chars()
        invariant
            it.seq() == text,
            text == template@,
            signs == nesting_signs(text.take(it.index() as int)),
            signs <= TEMPLATE_NESTING_LIMIT,
    {
        let ghost i = it.index() as int;
        proof {
            assert(c == text[i]);
            assert(text.take(i + 1).drop_last() =~= text.take(i));
            assert(text.take(i + 1).last() == c);
        }
        if c == '{' || c == '#' || c == '(' || c == '[' {
            if signs == TEMPLATE_NESTING_LIMIT {
                proof {
                    lemma_nesting_signs_grow(text, i + 1);
                }
                return false;
            }
            signs += 1;
        }
    }
    assert(text.take(text.len() as int) =~= text);
    true
}

/// The words with which a template that includes a partial is refused.
pub open spec fn partial_refusal() -> Seq<char> {
    "the job template includes a partial"@
}

/// The words with which a template with too many nesting signs is refused.
pub open spec fn nesting_refusal() -> Seq<char> {
    "the job template nests too deeply"@
}

/// A field with a text as its value.
fn text_field(name: &str, value: String) -> (field: TemplateField)
    ensures
        field@ == (TemplateFieldView { name: name@, value: TemplateValueView::Text(value@) }),
{
    TemplateField { name: String::from_str(name), value: TemplateValue::Text(value) }
}

/// A field with a number as its value.
fn number_field(name: &str, value: u64) -> (field: TemplateField)
    ensures
        field@ == (TemplateFieldView { name: name@, value: TemplateValueView::Number(value) }),
{
    TemplateField { name: String::from_str(name), value: TemplateValue::Number(value) }
}

/// The job that a rendered manifest describes.
pub open spec fn manifest_outcome(manifest: Seq<char>, r: Result<Job, BuildError>) -> bool {
    match parsed_job_manifest(manifest) {
        Ok(job) => r == Ok::<Job, BuildError>(job),
        Err(e) => r matches Err(BuildError::Manifest(m)) && m@ == yaml_error_text(e),
    }
}

/// Reads the job that the rendered manifest describes.
pub fn job_from_manifest(manifest: &str) -> (r: Result<Job, BuildError>)
    ensures
        manifest_outcome(manifest@, r),
{
    match parse_job_manifest(manifest) {
        Ok(job) => Ok(job),
        Err(e) => Err(BuildError::Manifest(describe_yaml_error(&e))),
    }
}

impl BuildManager {
    /// The option that is appended to the builder's output settings.
    pub open spec fn additional_options_spec(&self) -> Seq<char> {
        if self.insecure_registry_spec() {
            ",registry.insecure=true"@
        } else {
            ""@
        }
    }

    /// The values with which the job template of this build is rendered.
    pub open spec fn template_fields_spec(&self, context_url: Seq<char>) -> Seq<TemplateFieldView> {
        seq![
            TemplateFieldView {
                name: "JOB_NAME"@,
                value: TemplateValueView::Text(job_name(self.job_id@)),
            },
            TemplateFieldView {
                name: "JOB_IDENTIFIER"@,
                value: TemplateValueView::Text(self.job_id@),
            },
            TemplateFieldView {
                name: "IMAGE_NAME"@,
                value: TemplateValueView::Text(self.image_name_spec()),
            },
            TemplateFieldView { name: "CONTEXT_URL"@, value: TemplateValueView::Text(context_url) },
            TemplateFieldView {
                name: "TIMEOUT"@,
                value: TemplateValueView::Number(self.timeout_spec()),
            },
            TemplateFieldView {
                name: "TTL_AFTER_FINISHED"@,
                value: TemplateValueView::Number(self.state.build_ttl_after_finished),
            },
            TemplateFieldView {
                name: "ADDTL_OPTIONS"@,
                value: TemplateValueView::Text(self.additional_options_spec()),
            },
            TemplateFieldView {
                name: "RESOURCES"@,
                value: TemplateValueView::Text(self.state.build_resources@),
            },
            TemplateFieldView {
                name: "CREDS"@,
                value: match self.secret_name_spec() {
                    Some(name) => TemplateValueView::Text(name),
                    None => TemplateValueView::Null,
                },
            },
        ]
    }

    /// The values with which the job template of this build is rendered.
    pub fn job_template_fields(&self, context_url: &str) -> (fields: Vec<TemplateField>)
        requires
            self.config is Some,
        ensures
            fields_view(fields@) == self.template_fields_spec(context_url@),
    {
        let additional_options = if self.is_insecure_registry() {
            String::from_str(",registry.insecure=true")
        } else {
            String::from_str("")
        };
        let credentials = match self.get_secret_name() {
            Some(name) => TemplateValue::Text(name),
            None => TemplateValue::Null,
        };
        let mut fields: Vec<TemplateField> = Vec::new();
        fields.push(text_field("JOB_NAME", self.get_job_name()));
        fields.push(text_field("JOB_IDENTIFIER", self.job_id.clone()));
        fields.push(text_field("IMAGE_NAME", self.build_image_name()));
        fields.push(text_field("CONTEXT_URL", String::from_str(context_url)));
        fields.push(number_field("TIMEOUT", self.get_timeout()));
        fields.push(number_field("TTL_AFTER_FINISHED", self.state.build_ttl_after_finished));
        fields.push(text_field("ADDTL_OPTIONS", additional_options));
        fields.push(text_field("RESOURCES", self.state.build_resources.clone()));
        fields.push(TemplateField { name: String::from_str("CREDS"), value: credentials });
        assert(fields_view(fields@) =~= self.template_fields_spec(context_url@));
        fields
    }

    /// What creating the job of this build comes to: the refusal of a template
    /// that includes a partial or nests too deeply; else the job that the rendered
    /// template describes,
    /// or the failure of reading it with the reader's words, or the failure of
    /// rendering.
    pub open spec fn job_object_outcome(
        &self,
        context_url: Seq<char>,
        r: Result<Job, BuildError>,
    ) -> bool {
        if includes_partial(self.state.job_template@) {
            r matches Err(BuildError::Template(message)) && message@ == partial_refusal()
        } else if nesting_signs(self.state.job_template@) > TEMPLATE_NESTING_LIMIT {
            r matches Err(BuildError::Template(message)) && message@ == nesting_refusal()
        } else {
            match rendered_template(
                self.state.job_template@,
                self.template_fields_spec(context_url),
            ) {
                Some(manifest) => manifest_outcome(manifest, r),
                None => r matches Err(BuildError::Template(message)),
            }
        }
    }

    /// Renders the job template with the values of this build and reads the
    /// job that the rendered manifest describes. A template that includes a
    /// partial, or that holds more nesting signs than the limit, is refused
    /// unrendered.
    pub fn create_job_object(&self, context_url: &String) -> (r: Result<Job, BuildError>)
        requires
            self.config is Some,
        ensures
            self.job_object_outcome(context_url@, r),
    {
        if template_includes_partial(self.state.job_template.as_str()) {
            return Err(
                BuildError::Template(String::from_str("the job template includes a partial")),
            );
        }
        if !template_nests_within_limit(self.state.job_template.as_str()) {
            return Err(
                BuildError::Template(String::from_str("the job template nests too deeply")),
            );
        }
        let fields = self.job_template_fields(context_url.as_str());
        match render_template(self.state.job_template.as_str(), &fields) {
            Ok(manifest) => job_from_manifest(manifest.as_str()),
            Err(e) => Err(BuildError::Template(describe_render_error(&e))),
        }
    }
}

} // verus!
