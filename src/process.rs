//! The transform pipeline: after the stored image is decoded, select the
//! operation, apply it, and name the result; then report how saving went.
//! Decoding and saving are done by the caller, which hands their outcome in.

use vstd::prelude::*;
use crate::naming::{
    derive_output_filename, has_no_slash, is_plain_path, is_storable_name, join_path, output_name_of,
    path_in, processed_name_for, storable_name,
};
use crate::operation::{describes, is_known_operation, params_view, Operation};
use crate::picture::{
    can_transform, clamp_delta, clamped_delta, transform_of, transformed_size, Picture,
};
use crate::response::{
    failure, prefixed, ImageProcessingResponse, Reply, STATUS_BAD_REQUEST, STATUS_OK,
    STATUS_SERVER_ERROR,
};

verus! {

/// Where uploads are read from and processed images are written to.
#[derive(Clone, Debug)]
pub struct ServiceConfig {
    pub upload_dir: String,
    pub processed_dir: String,
}

/// A request to transform a stored image.
#[derive(Clone, Debug)]
pub struct ProcessRequest {
    pub filename: String,
    pub operation: String,
    pub params: Option<Vec<String>>,
}

/// What is left to do once the operation is chosen.
pub enum ProcessStep {
    /// Answer at once; nothing is written.
    Respond(Reply),
    /// Write `picture` to `output_path`.
    Save { picture: Picture, output_filename: String, output_path: String },
    /// Blur `picture` with the standard deviation read from `sigma_text`
    /// (1.0 when it is missing or unreadable), then write it to `output_path`.
    /// Brighten `picture`, whose channels are floats, by `delta` (already
    /// bounded to what can make a difference), then write it to `output_path`.
    BrightenThenSave {
        picture: Picture,
        delta: i32,
        output_filename: String,
        output_path: String,
    },
    BlurThenSave {
        picture: Picture,
        sigma_text: Option<String>,
        output_filename: String,
        output_path: String,
    },
}

/// `name` is a processed name for this request, under the processed directory at `path`.
pub open spec fn is_output_for(
    config: ServiceConfig,
    request: ProcessRequest,
    name: Seq<char>,
    path: Seq<char>,
) -> bool {
    &&& exists|stem: Seq<char>, extension: Seq<char>|
        has_no_slash(stem) && has_no_slash(extension) && name == output_name_of(
            stem,
            request.operation@,
            params_view(request.params),
            extension,
        )
    &&& is_plain_path(path_in(config.upload_dir@, request.filename@)) ==> name
        == processed_name_for(
        path_in(config.upload_dir@, request.filename@),
        request.operation@,
        params_view(request.params),
    )
    &&& path == path_in(config.processed_dir@, name)
}

impl ServiceConfig {
    /// The path of a stored upload.
    pub fn upload_path(&self, filename: &str) -> (r: String)
        ensures
            r@ == path_in(self.upload_dir@, filename@),
    {
        join_path(self.upload_dir.as_str(), filename)
    }
}

/// The answer when the stored image cannot be opened or decoded (it was never
/// uploaded, or is not an image): a server error, and nothing is written.
pub fn open_failed(request: &ProcessRequest, error_text: &str) -> (r: Reply)
    ensures
        r.status == STATUS_SERVER_ERROR,
        !r.body.success,
        r.body.message@ == "Failed to open image: "@ + error_text@,
        r.body.original_filename == request.filename,
        r.body.processed_filename is None,
{
    failure(
        STATUS_SERVER_ERROR,
        prefixed("Failed to open image: ", error_text),
        request.filename.clone(),
    )
}

/// Refuses a name that no upload is stored under (one that is empty, `.`,
/// `..`, or holds a separator), so that only the upload directory is read:
/// such a request is answered as a file that cannot be opened.
pub fn refuse_unstored_name(request: &ProcessRequest) -> (r: Option<Reply>)
    ensures
        r is None <==> is_storable_name(request.filename@),
        r matches Some(reply) ==> reply.status == STATUS_SERVER_ERROR && !reply.body.success
            && reply.body.message@ == "Failed to open image: no such upload"@
            && reply.body.original_filename == request.filename
            && reply.body.processed_filename is None,
{
    if storable_name(request.filename.as_str()) {
        None
    } else {
        proof {
            reveal_strlit("Failed to open image: ");
            reveal_strlit("no such upload");
            reveal_strlit("Failed to open image: no such upload");
        }
        let reply = open_failed(request, "no such upload");
        assert(reply.body.message@ =~= "Failed to open image: no such upload"@);
        Some(reply)
    }
}

/// Chooses what to do with the decoded image. An unknown operation is
/// answered with a bad request and nothing written; a blur is left to the
/// caller; any other operation is applied here. The result is named after the
/// source, the operation and the parameters, under the processed directory.
pub fn plan_after_open(config: &ServiceConfig, request: &ProcessRequest, picture: Picture) -> (r:
    ProcessStep)
    ensures
        !is_known_operation(request.operation@) <==> (r matches ProcessStep::Respond(reply)
            && reply.status == STATUS_BAD_REQUEST),
        !is_known_operation(request.operation@) ==> (r matches ProcessStep::Respond(reply)
            && !reply.body.success && reply.body.message@ == "Unknown operation: "@
            + request.operation@ && reply.body.original_filename == request.filename
            && reply.body.processed_filename is None),
        r matches ProcessStep::Respond(reply) ==> reply.status == STATUS_BAD_REQUEST
            || reply.status == STATUS_SERVER_ERROR,
        r matches ProcessStep::Respond(reply) && reply.status == STATUS_SERVER_ERROR ==> exists|
            op: Operation,
        |
            describes(op, request.operation@, params_view(request.params)) && !(op is Blur)
                && !can_transform(picture.spec_width(), picture.spec_height(), picture.spec_float_samples(), op),
        r matches ProcessStep::Save { picture: out, output_filename, output_path } ==> exists|
            op: Operation,
        |
            describes(op, request.operation@, params_view(request.params)) && !(op is Blur)
                && can_transform(picture.spec_width(), picture.spec_height(), picture.spec_float_samples(), op) && (
            out.spec_width(),
            out.spec_height(),
            ) == transformed_size(picture.spec_width(), picture.spec_height(), op)
                && out.applied() == picture.applied().push(transform_of(op))
                && is_output_for(*config, *request, output_filename@, output_path@),
        r matches ProcessStep::BlurThenSave {
            picture: out,
            sigma_text,
            output_filename,
            output_path,
        } ==> describes(
            Operation::Blur { sigma_text },
            request.operation@,
            params_view(request.params),
        ) && out == picture && is_output_for(*config, *request, output_filename@, output_path@),
        r matches ProcessStep::BrightenThenSave {
            picture: out,
            delta,
            output_filename,
            output_path,
        } ==> picture.spec_float_samples() && out == picture && (exists|d: i32|
            describes(Operation::Brighten { delta: d }, request.operation@, params_view(request.params))
                && delta == clamped_delta(d)) && is_output_for(
            *config,
            *request,
            output_filename@,
            output_path@,
        ),
        is_known_operation(request.operation@) && !(r is Save) && !(r is BlurThenSave) && !(
        r is BrightenThenSave) ==> exists|op: Operation|
            describes(op, request.operation@, params_view(request.params))
                && op is Resize && !can_transform(
                picture.spec_width(),
                picture.spec_height(),
                picture.spec_float_samples(),
                op,
            ),
{
    let op = match Operation::from_request(request.operation.as_str(), &request.params) {
        Some(op) => op,
        None => {
            let message = prefixed("Unknown operation: ", request.operation.as_str());
            return ProcessStep::Respond(
                failure(STATUS_BAD_REQUEST, message, request.filename.clone()),
            );
        },
    };
    let input_path = config.upload_path(request.filename.as_str());
    let output_filename = derive_output_filename(
        input_path.as_str(),
        request.operation.as_str(),
        &request.params,
    );
    let output_path = join_path(config.processed_dir.as_str(), output_filename.as_str());
    match op {
        Operation::Blur { sigma_text } => ProcessStep::BlurThenSave {
            picture,
            sigma_text,
            output_filename,
            output_path,
        },
        Operation::Brighten { delta } if picture.float_samples() => {
            ProcessStep::BrightenThenSave {
                picture,
                delta: clamp_delta(delta),
                output_filename,
                output_path,
            }
        },
        _ => {
            if fits(&picture, &op) {
                let out = picture.transform(&op);
                ProcessStep::Save { picture: out, output_filename, output_path }
            } else {
                let message = "Failed to process image: the operation cannot be applied to this image".to_owned();
                ProcessStep::Respond(
                    failure(STATUS_SERVER_ERROR, message, request.filename.clone()),
                )
            }
        },
    }
}

/// Whether the picture's buffers for `op` fit in memory.
fn fits(picture: &Picture, op: &Operation) -> (r: bool)
    requires
        !(*op is Blur),
    ensures
        r == can_transform(
            picture.spec_width(),
            picture.spec_height(),
            picture.spec_float_samples(),
            *op,
        ),
{
    match op {
        Operation::Brighten { .. } => !picture.float_samples(),
        Operation::Resize { width, height } => {
            let w = picture.width() as u128;
            let h = *height as u128;
            let nw = *width as u128;
            let limit = usize::MAX as u128;
            proof {
                assert(4 * w * h <= 4 * 0xffff_ffffu128 * 0xffff_ffffu128) by (nonlinear_arith)
                    requires
                        w <= 0xffff_ffffu128,
                        h <= 0xffff_ffffu128,
                ;
                assert(4 * nw * h <= 4 * 0xffff_ffffu128 * 0xffff_ffffu128) by (nonlinear_arith)
                    requires
                        nw <= 0xffff_ffffu128,
                        h <= 0xffff_ffffu128,
                ;
            }
            4 * w * h <= limit && 4 * nw * h <= limit
        },
        _ => true,
    }
}

/// The answer when the processed image was written.
pub fn saved(request: &ProcessRequest, output_filename: String) -> (r: Reply)
    ensures
        r.status == STATUS_OK,
        r.body.success,
        r.body.message@ == "Image processed with "@ + request.operation@ + " operation"@,
        r.body.original_filename == request.filename,
        r.body.processed_filename == Some(output_filename),
{
    let mut message = prefixed("Image processed with ", request.operation.as_str());
    message.append(" operation");
    Reply {
        status: STATUS_OK,
        body: ImageProcessingResponse {
            success: true,
            message,
            original_filename: request.filename.clone(),
            processed_filename: Some(output_filename),
        },
    }
}

/// The answer when writing the processed image failed.
pub fn save_failed(request: &ProcessRequest, error_text: &str) -> (r: Reply)
    ensures
        r.status == STATUS_SERVER_ERROR,
        !r.body.success,
        r.body.message@ == "Failed to save processed image: "@ + error_text@,
        r.body.original_filename == request.filename,
        r.body.processed_filename is None,
{
    failure(
        STATUS_SERVER_ERROR,
        prefixed("Failed to save processed image: ", error_text),
        request.filename.clone(),
    )
}

} // verus!
