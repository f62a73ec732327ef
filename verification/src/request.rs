//! The request processor: given a requested logical name, an extension, and
//! an optional explicit size, decide exactly what to read, transform and
//! emit. The extension must parse and sit in the configured allow-list; a
//! template match overrides the caller's requested format and size with the
//! template's preset; the canonical bytes are re-encoded only when the
//! target differs from the canonical storage format or an operation was
//! requested.
//!
//! Reading the canonical file is the caller's; it hands the read's outcome
//! back in, and every failure maps to exactly one status category.

use vstd::prelude::*;
use crate::encoding::{ImageEncoding, encoding_of_extension};
use crate::transcoder::{Operations, PixelSize, Transcoder, ops_bounded, transcode_spec};
use crate::templates::{
    TemplateSettings, check_templates, first_match_idx, canonical_stem, remove_template_pattern,
    lemma_first_match_is_match,
};
use crate::storage::StorageError;
use crate::config::ImageSettings;

verus! {

/// The status category a failed delivery maps to.
#[derive(Debug, Clone, Copy, PartialEq, Eq, Structural)]
pub enum RequestError {
    /// The requested extension is unrecognized or not allowed.
    BadRequest,
    /// The canonical file does not exist.
    NotFound,
    /// A read or transcode failure; no detail leaks to the caller.
    Internal,
}

/// What a delivery request resolved to.
#[derive(Debug)]
pub struct RequestPlan {
    /// The canonical on-disk stem to read.
    pub stem: String,
    /// The encoding the requested extension named; the response content
    /// type is derived from it.
    pub requested: ImageEncoding,
    /// The encoding the served bytes will carry: the template's preset
    /// format when a template matched, else the requested one.
    pub target: ImageEncoding,
    /// The operations to apply before re-encoding.
    pub ops: Vec<Operations>,
}

/// The abstract value of a plan.
#[verifier::ext_equal]
pub struct PlanAbs {
    pub stem: Seq<char>,
    pub requested: ImageEncoding,
    pub target: ImageEncoding,
    pub ops: Seq<Operations>,
}

impl View for RequestPlan {
    type V = PlanAbs;

    open spec fn view(&self) -> PlanAbs {
        PlanAbs { stem: self.stem@, requested: self.requested, target: self.target, ops: self.ops@ }
    }
}

/// What planning a request yields, for every input: the exact plan, or
/// `BadRequest` exactly when the extension does not parse or is not in the
/// allow-list. Template presets take precedence over the ad-hoc request:
/// on a match the template's format and size replace the caller's, and the
/// stem is the name with the matched pattern stripped.
pub open spec fn plan_spec(
    name: Seq<char>,
    ext: Seq<char>,
    resize: Option<PixelSize>,
    formats: Seq<ImageEncoding>,
    templates: Seq<TemplateSettings>,
) -> Result<PlanAbs, RequestError> {
    match encoding_of_extension(ext) {
        None => Err(RequestError::BadRequest),
        Some(f) => if !formats.contains(f) {
            Err(RequestError::BadRequest)
        } else {
            match first_match_idx(name, templates) {
                Some(i) => Ok(
                    PlanAbs {
                        stem: canonical_stem(name, templates[i]),
                        requested: f,
                        target: templates[i].format,
                        ops: seq![Operations::Resize(templates[i].size)],
                    },
                ),
                None => Ok(
                    PlanAbs {
                        stem: name,
                        requested: f,
                        target: f,
                        ops: match resize {
                            Some(s) => seq![Operations::Resize(s)],
                            None => Seq::empty(),
                        },
                    },
                ),
            }
        },
    }
}

/// The bytes a read outcome carries.
pub open spec fn read_abs(read: Result<Vec<u8>, StorageError>) -> Result<Seq<u8>, StorageError> {
    match read {
        Ok(v) => Ok(v@),
        Err(e) => Err(e),
    }
}

/// What rendering a planned request against a read outcome yields, for
/// every input: a missing canonical file is `NotFound`, any other read
/// failure is `Internal`; canonical bytes are returned unmodified exactly
/// when the target equals the canonical storage format and no operation was
/// requested, and are otherwise transcoded, any transcode failure mapping
/// to `Internal`.
pub open spec fn render_spec(
    plan: PlanAbs,
    storage_format: ImageEncoding,
    read: Result<Seq<u8>, StorageError>,
) -> Result<Seq<u8>, RequestError> {
    match read {
        Err(StorageError::NotFound) => Err(RequestError::NotFound),
        Err(StorageError::Io) => Err(RequestError::Internal),
        Ok(bytes) => if plan.target == storage_format && plan.ops.len() == 0 {
            Ok(bytes)
        } else {
            match transcode_spec(
                bytes,
                storage_format.spec_bare_extension(),
                plan.target,
                plan.ops,
            ) {
                Ok(out) => Ok(out),
                Err(_) => Err(RequestError::Internal),
            }
        },
    }
}

/// One whole delivery: planning, then rendering against the read outcome.
pub open spec fn process_spec(
    name: Seq<char>,
    ext: Seq<char>,
    resize: Option<PixelSize>,
    formats: Seq<ImageEncoding>,
    storage_format: ImageEncoding,
    templates: Seq<TemplateSettings>,
    read: Result<Seq<u8>, StorageError>,
) -> Result<Seq<u8>, RequestError> {
    match plan_spec(name, ext, resize, formats, templates) {
        Err(e) => Err(e),
        Ok(plan) => render_spec(plan, storage_format, read),
    }
}

/// Whether the allow-list holds this encoding.
fn contains_format(formats: &Vec<ImageEncoding>, f: ImageEncoding) -> (r: bool)
    ensures
        r == formats@.contains(f),
{
    let n = formats.len();
    let mut i: usize = 0;
    while i < n
        invariant
            i <= n,
            n == formats@.len(),
            forall|j: int| 0 <= j < i ==> formats@[j] != f,
        decreases n - i,
    {
        if formats[i] == f {
            return true;
        }
        i += 1;
    }
    false
}

/// Resolves a delivery request into a plan: validates the extension against
/// the known encodings and the configured allow-list, resolves templates
/// (first match wins, preset overrides the request), and fixes the stem,
/// target format and operation list.
pub fn plan_request(
    name: &String,
    requested_extension: &str,
    resize: Option<PixelSize>,
    settings: &ImageSettings,
    templates: &Vec<TemplateSettings>,
) -> (r: Result<RequestPlan, RequestError>)
    ensures
        r matches Ok(p) ==> plan_spec(
            name@,
            requested_extension@,
            resize,
            settings.formats@,
            templates@,
        ) matches Ok(a) && p@ == a,
        r matches Err(e) ==> plan_spec(
            name@,
            requested_extension@,
            resize,
            settings.formats@,
            templates@,
        ) == Err::<PlanAbs, RequestError>(e),
{
    let f = match ImageEncoding::from_extension(requested_extension) {
        Some(f) => f,
        None => {
            return Err(RequestError::BadRequest);
        },
    };
    if !contains_format(&settings.formats, f) {
        return Err(RequestError::BadRequest);
    }
    match check_templates(name, templates) {
        Some(t) => {
            proof {
                lemma_first_match_is_match(name@, templates@);
            }
            let stem = remove_template_pattern(name.as_str(), t);
            let ops = vec![Operations::Resize(t.size)];
            let p = RequestPlan { stem, requested: f, target: t.format, ops };
            proof {
                let a = plan_spec(
                    name@,
                    requested_extension@,
                    resize,
                    settings.formats@,
                    templates@,
                )->Ok_0;
                assert(p@.ops =~= a.ops);
                assert(p@ =~= a);
            }
            Ok(p)
        },
        None => {
            let ops: Vec<Operations> = match resize {
                Some(s) => vec![Operations::Resize(s)],
                None => Vec::new(),
            };
            let p = RequestPlan { stem: name.clone(), requested: f, target: f, ops };
            proof {
                let a = plan_spec(
                    name@,
                    requested_extension@,
                    resize,
                    settings.formats@,
                    templates@,
                )->Ok_0;
                assert(p@.ops =~= a.ops);
                assert(p@ =~= a);
            }
            Ok(p)
        },
    }
}

/// Renders a planned request against the outcome of reading the canonical
/// file: returns the bytes unmodified when no work is needed, transcodes
/// otherwise, and maps each failure to its status category.
pub fn render_request(
    plan: &RequestPlan,
    storage_format: ImageEncoding,
    read: Result<Vec<u8>, StorageError>,
) -> (r: Result<Vec<u8>, RequestError>)
    requires
        ops_bounded(plan@.ops),
    ensures
        r matches Ok(v) ==> render_spec(plan@, storage_format, read_abs(read)) matches Ok(s)
            && v@ == s,
        r matches Err(e) ==> render_spec(plan@, storage_format, read_abs(read))
            == Err::<Seq<u8>, RequestError>(e),
{
    let bytes = match read {
        Ok(b) => b,
        Err(StorageError::NotFound) => {
            return Err(RequestError::NotFound);
        },
        Err(StorageError::Io) => {
            return Err(RequestError::Internal);
        },
    };
    if plan.target == storage_format && plan.ops.len() == 0 {
        return Ok(bytes);
    }
    let hint = storage_format.bare_extension().to_owned();
    let n = plan.ops.len();
    let mut ops: Vec<Operations> = Vec::new();
    let mut i: usize = 0;
    while i < n
        invariant
            i <= n,
            n == plan.ops@.len(),
            ops@ == plan.ops@.take(i as int),
        decreases n - i,
    {
        ops.push(plan.ops[i]);
        proof {
            assert(ops@ =~= plan.ops@.take(i + 1 as int));
        }
        i += 1;
    }
    proof {
        assert(ops@ =~= plan.ops@);
    }
    match Transcoder.transcode(bytes.as_slice(), hint, plan.target, Some(ops)) {
        Ok(out) => Ok(out),
        Err(_) => Err(RequestError::Internal),
    }
}

/// One whole delivery: plan, then render against the read outcome the
/// caller obtained for the plan's stem.
pub fn process(
    name: &String,
    requested_extension: &str,
    resize: Option<PixelSize>,
    settings: &ImageSettings,
    templates: &Vec<TemplateSettings>,
    read: Result<Vec<u8>, StorageError>,
) -> (r: Result<Vec<u8>, RequestError>)
    requires
        plan_spec(
            name@,
            requested_extension@,
            resize,
            settings.formats@,
            templates@,
        ) matches Ok(a) ==> ops_bounded(a.ops),
    ensures
        r matches Ok(v) ==> process_spec(
            name@,
            requested_extension@,
            resize,
            settings.formats@,
            settings.storage_format,
            templates@,
            read_abs(read),
        ) matches Ok(s) && v@ == s,
        r matches Err(e) ==> process_spec(
            name@,
            requested_extension@,
            resize,
            settings.formats@,
            settings.storage_format,
            templates@,
            read_abs(read),
        ) == Err::<Seq<u8>, RequestError>(e),
{
    let plan = match plan_request(name, requested_extension, resize, settings, templates) {
        Ok(p) => p,
        Err(e) => {
            return Err(e);
        },
    };
    render_request(&plan, settings.storage_format, read)
}

/// The status category of an error, as the transport maps it.
pub open spec fn spec_status_code(e: RequestError) -> u16 {
    match e {
        RequestError::BadRequest => 400,
        RequestError::NotFound => 404,
        RequestError::Internal => 500,
    }
}

/// The numeric status of a failed delivery: an unsupported or disallowed
/// extension is 400, a missing canonical file 404, everything else 500.
pub fn status_code(e: RequestError) -> (r: u16)
    ensures
        r == spec_status_code(e),
{
    match e {
        RequestError::BadRequest => 400,
        RequestError::NotFound => 404,
        RequestError::Internal => 500,
    }
}

/// An extension absent from the configured allow-list (or unknown
/// altogether) is rejected as a bad request, whatever the read outcome —
/// even if the canonical file exists and could have been transcoded.
pub proof fn lemma_disallowed_extension_rejected(
    name: Seq<char>,
    ext: Seq<char>,
    resize: Option<PixelSize>,
    formats: Seq<ImageEncoding>,
    storage_format: ImageEncoding,
    templates: Seq<TemplateSettings>,
    read: Result<Seq<u8>, StorageError>,
)
    requires
        match encoding_of_extension(ext) {
            Some(f) => !formats.contains(f),
            None => true,
        },
    ensures
        process_spec(name, ext, resize, formats, storage_format, templates, read) == Err::<
            Seq<u8>,
            RequestError,
        >(RequestError::BadRequest),
{
}

/// Delivery is idempotent: two requests for the same name, extension and
/// size, whose reads of the unchanged canonical file return the same
/// outcome, return byte-identical results — every stage of the pipeline is
/// a function of its inputs.
pub proof fn lemma_delivery_idempotent(
    name: Seq<char>,
    ext: Seq<char>,
    resize: Option<PixelSize>,
    formats: Seq<ImageEncoding>,
    storage_format: ImageEncoding,
    templates: Seq<TemplateSettings>,
    read: Result<Seq<u8>, StorageError>,
    r1: Result<Seq<u8>, RequestError>,
    r2: Result<Seq<u8>, RequestError>,
)
    requires
        r1 == process_spec(name, ext, resize, formats, storage_format, templates, read),
        r2 == process_spec(name, ext, resize, formats, storage_format, templates, read),
    ensures
        r1 == r2,
{
}

} // verus!
