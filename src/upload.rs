//! The upload handler's decisions: which multipart field is stored, under
//! what name, and what is answered. Reading fields and writing files is done
//! by the caller, field by field.

use vstd::prelude::*;
use crate::naming::{generate_stored_name, has_no_slash, is_stored_name_for};
use crate::response::{failure, ImageProcessingResponse, Reply, STATUS_BAD_REQUEST, STATUS_OK};
use crate::text::same_text;

verus! {

/// The name of the field that carries the image.
pub open spec fn is_image_field(name: Option<Seq<char>>) -> bool {
    name == Some("image"@)
}

pub open spec fn name_view(name: Option<&str>) -> Option<Seq<char>> {
    match name {
        Some(t) => Some(t@),
        None => None,
    }
}

/// One upload request in progress. The first field named "image" is stored;
/// later fields, of any name, are skipped.
pub struct UploadSession {
    stored: Option<String>,
    seen: Ghost<Seq<Option<Seq<char>>>>,
}

impl UploadSession {
    /// The names of the fields seen so far, in order.
    pub closed spec fn fields_seen(&self) -> Seq<Option<Seq<char>>> {
        self.seen@
    }

    /// The name under which the image field is stored, once there is one.
    pub closed spec fn stored_name(&self) -> Option<String> {
        self.stored
    }

    /// Whether a field named "image" has been seen.
    pub open spec fn image_seen(&self) -> bool {
        exists|i: int| 0 <= i < self.fields_seen().len() && is_image_field(#[trigger] self.fields_seen()[i])
    }

    pub closed spec fn wf(&self) -> bool {
        self.stored is Some <==> self.image_seen()
    }

    pub fn new() -> (r: UploadSession)
        ensures
            r.wf(),
            r.fields_seen() == Seq::<Option<Seq<char>>>::empty(),
            r.stored_name() is None,
    {
        UploadSession { stored: None, seen: Ghost(Seq::empty()) }
    }

    /// Takes note of the next field. Returns the name of the file to write the
    /// field's bytes to, or `None` when the field is to be skipped: it is not
    /// named "image", or an image field was already stored.
    pub fn on_field(&mut self, field_name: Option<&str>, original_filename: Option<&str>) -> (r:
        Option<String>)
        requires
            old(self).wf(),
        ensures
            final(self).wf(),
            final(self).fields_seen() == old(self).fields_seen().push(name_view(field_name)),
            r is Some <==> (is_image_field(name_view(field_name)) && !old(self).image_seen()),
            r is Some ==> final(self).stored_name() == r,
            r is None ==> final(self).stored_name() == old(self).stored_name(),
            r matches Some(n) ==> is_stored_name_for(n@, name_view(original_filename)) && has_no_slash(
                n@,
            ),
    {
        let ghost before = self.seen@;
        let is_image = match field_name {
            Some(n) => same_text(n, "image"),
            None => false,
        };
        self.seen = Ghost(self.seen@.push(name_view(field_name)));
        assert forall|i: int| 0 <= i < before.len() implies self.seen@[i] == before[i] by {}
        assert(self.seen@[before.len() as int] == name_view(field_name));
        proof {
            if is_image {
                assert(is_image_field(self.fields_seen()[before.len() as int]));
            } else {
                assert forall|i: int| 0 <= i < self.seen@.len() && is_image_field(
                    #[trigger] self.seen@[i],
                ) implies i < before.len() && is_image_field(before[i]) by {}
            }
            if exists|i: int| 0 <= i < before.len() && is_image_field(#[trigger] before[i]) {
                let i = choose|i: int| 0 <= i < before.len() && is_image_field(#[trigger] before[i]);
                assert(is_image_field(self.fields_seen()[i]));
            }
            assert(old(self).fields_seen() == before);
            assert(self.image_seen() == (is_image || old(self).image_seen()));
        }
        if is_image && self.stored.is_none() {
            let name = generate_stored_name(original_filename);
            self.stored = Some(name.clone());
            assert(self.image_seen());
            Some(name)
        } else {
            assert(self.stored is Some <==> old(self).image_seen());
            None
        }
    }

    /// The answer once every field was read: the stored name, or a bad
    /// request when no field named "image" came.
    pub fn finish(&self) -> (r: Reply)
        requires
            self.wf(),
        ensures
            r.body.success <==> self.image_seen(),
            r.body.processed_filename is None,
            !self.image_seen() ==> r.status == STATUS_BAD_REQUEST && r.body.message@
                == "No image uploaded"@ && r.body.original_filename@.len() == 0,
            self.image_seen() ==> r.status == STATUS_OK && r.body.message@
                == "Image uploaded successfully"@ && Some(r.body.original_filename)
                == self.stored_name(),
    {
        match &self.stored {
            Some(name) => Reply {
                status: STATUS_OK,
                body: ImageProcessingResponse {
                    success: true,
                    message: "Image uploaded successfully".to_owned(),
                    original_filename: name.clone(),
                    processed_filename: None,
                },
            },
            None => failure(STATUS_BAD_REQUEST, "No image uploaded".to_owned(), String::new()),
        }
    }
}

} // verus!
