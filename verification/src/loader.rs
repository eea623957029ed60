//! Loader of workflow definition resources.
//!
//! Given a URI, the loader resolves the scheme to a byte source, asks a
//! pluggable fetcher for the raw bytes, selects the wire format from the
//! path's file extension, decodes the bytes into a typed document, and
//! validates the document before handing it out in a shared handle.

use std::rc::Rc;

use vstd::prelude::*;

use crate::decode::{decode_functions_document, decode_workflow};
use crate::decode::{model_functions_document, plain_workflow_tree};
use crate::definition::functions::{
    functions_document_view_violations,
    lemma_functions_document_violations_by_view,
    FunctionsDocument,
};
use crate::definition::WorkflowDefinition;
use crate::error::Error;
use crate::json::{json_model, json_parsed, parse_json, parse_yaml_as_json, yaml_parsed, JsonModel};
use crate::strings::str_eq;
use crate::uri::{file_ext_of, Uri};
use crate::validation::ValidateDefinition;

verus! {

/// Relies on std::rc::Rc::clone: the returned handle shares the same
/// underlying value.
#[verifier::external_body]
fn rc_clone<T>(rc: &Rc<T>) -> (r: Rc<T>)
    ensures
        r == *rc,
{
    Rc::clone(rc)
}

/// The kinds of documents the loader can produce: the runtime type
/// identity stored beside every cached document.
#[derive(Clone, Copy, Debug, PartialEq, Eq, Structural)]
pub enum DocumentKind {
    /// A workflow definition document.
    Workflow,
    /// A functions resource document.
    Functions,
}

impl DocumentKind {
    /// The diagnostic name of this document kind.
    pub open spec fn spec_kind_name(&self) -> Seq<char> {
        match *self {
            DocumentKind::Workflow => "WorkflowDefinition"@,
            DocumentKind::Functions => "FunctionsDocument"@,
        }
    }

    /// Returns the diagnostic name of this document kind.
    pub fn kind_name(&self) -> (r: String)
        ensures
            r@ == self.spec_kind_name(),
    {
        match self {
            DocumentKind::Workflow => "WorkflowDefinition".to_owned(),
            DocumentKind::Functions => "FunctionsDocument".to_owned(),
        }
    }
}

/// A shared, immutable handle to a loaded document, tagged with its
/// kind.
#[derive(Debug)]
pub enum DocumentHandle {
    /// A workflow definition document.
    Workflow(Rc<WorkflowDefinition>),
    /// A functions resource document.
    Functions(Rc<FunctionsDocument>),
}

impl DocumentHandle {
    /// The kind of document this handle holds.
    pub open spec fn kind_of(&self) -> DocumentKind {
        match *self {
            DocumentHandle::Workflow(_) => DocumentKind::Workflow,
            DocumentHandle::Functions(_) => DocumentKind::Functions,
        }
    }

    /// Whether the held document has no violation.
    pub open spec fn valid(&self) -> bool {
        match *self {
            DocumentHandle::Workflow(doc) => doc.doc_violations().len() == 0,
            DocumentHandle::Functions(doc) => doc.doc_violations().len() == 0,
        }
    }

    /// Returns a second handle to the same document.
    pub fn duplicate(&self) -> (r: DocumentHandle)
        ensures
            r == *self,
    {
        match self {
            DocumentHandle::Workflow(rc) => DocumentHandle::Workflow(rc_clone(rc)),
            DocumentHandle::Functions(rc) => DocumentHandle::Functions(rc_clone(rc)),
        }
    }
}

/// A pluggable byte source: how raw bytes are fetched for each scheme
/// the loader recognizes.
///
/// The loader promises nothing about what a fetcher returns; whatever
/// comes back is decoded and validated like any other bytes.
pub trait FetchBytes {
    /// Fetches the bytes of a local file, or an I/O message on failure.
    fn fetch_local(&mut self, path: &str) -> Result<Vec<u8>, String>;

    /// Fetches the bytes behind a remote URI, or an I/O message on
    /// failure.
    fn fetch_remote(&mut self, uri: &str) -> Result<Vec<u8>, String>;
}

/// Loader of workflow definition resources.
///
/// Stateless: each load is a single fetch, decode and validate pass,
/// and nothing is remembered between calls. The capability switches
/// stand in for builds that leave YAML decoding or validation out; a
/// switched-off capability fails loudly instead of being skipped.
#[derive(Clone, Copy, Debug)]
pub struct DefinitionLoader {
    /// Whether the YAML wire format is available.
    pub yaml_supported: bool,
    /// Whether document validation is available.
    pub validation_supported: bool,
}

/// Whether `e` is an error the decode-and-validate stage may produce
/// for the given wire format: the format's own conversion error (never
/// the other format's), a validation failure, or the missing-validation
/// capability.
pub open spec fn decode_stage_error(e: Error, yaml: bool) -> bool {
    &&& (if yaml {
        !(e is JsonConversionFailed)
    } else {
        !(e is YamlConversionFailed)
    })
    &&& (e is JsonConversionFailed || e is YamlConversionFailed || e is ValidationFailed || (
    e matches Error::FeatureDisabled { required_feature } && required_feature@ == "validate"@))
}

/// What decoding and validating a parsed tree as a functions resource
/// document yields, exactly: a failing decode gives the format's
/// conversion error with the decode message; a decoded document gives
/// the missing-capability error when validation is off, and otherwise
/// succeeds with exactly the decoded content if and only if that
/// content has no violation, failing with the full violation report
/// otherwise.
pub open spec fn functions_outcome(
    validation_supported: bool,
    m: JsonModel,
    yaml: bool,
    r: Result<DocumentHandle, Error>,
) -> bool {
    match model_functions_document(m) {
        Err(dm) => r matches Err(e) && (if yaml {
            e matches Error::YamlConversionFailed { message } && message@ == dm
        } else {
            e matches Error::JsonConversionFailed { message } && message@ == dm
        }),
        Ok(fv) => if !validation_supported {
            r matches Err(e) && (e matches Error::FeatureDisabled { required_feature }
                && required_feature@ == "validate"@)
        } else {
            &&& (r is Ok <==> functions_document_view_violations(fv).len() == 0)
            &&& (r matches Ok(h) ==> (h matches DocumentHandle::Functions(doc) && doc@ == fv))
            &&& (r matches Err(e) ==> (e matches Error::ValidationFailed { report } && report@
                == functions_document_view_violations(fv)))
        },
    }
}

/// What decoding and validating a parsed tree as a workflow definition
/// yields: a tree that is no object gives the format's conversion error
/// with the decoder's message; a decoded document gives the
/// missing-capability error when validation is off (and then only that
/// error or a conversion error can arise); a returned document carries
/// exactly the root fields, root sections and state identities the tree
/// determines and has no violation; a validation failure reports
/// exactly the violations — at least one — of a document carrying what
/// the tree determines; and a self-contained workflow tree is owed
/// success whenever validation is available.
pub open spec fn workflow_outcome(
    validation_supported: bool,
    m: JsonModel,
    yaml: bool,
    r: Result<DocumentHandle, Error>,
) -> bool {
    &&& (r matches Ok(h) ==> (h matches DocumentHandle::Workflow(doc) && doc.decoded_facts(m)
        && doc.doc_violations().len() == 0 && validation_supported))
    &&& (!validation_supported ==> (r matches Err(e) && ((e matches Error::FeatureDisabled {
        required_feature,
    } && required_feature@ == "validate"@) || (if yaml {
        e is YamlConversionFailed
    } else {
        e is JsonConversionFailed
    }))))
    &&& (r matches Err(e) ==> (e matches Error::ValidationFailed { report } ==> (
    validation_supported && report@.len() > 0 && (exists|doc: WorkflowDefinition|
        (#[trigger] doc.decoded_facts(m)) && report@ == doc.doc_violations()))))
    &&& (!(m is Obj) ==> (r matches Err(e) && (if yaml {
        e matches Error::YamlConversionFailed { message } && message@
            == "a workflow definition must be an object"@
    } else {
        e matches Error::JsonConversionFailed { message } && message@
            == "a workflow definition must be an object"@
    })))
    &&& ((validation_supported && plain_workflow_tree(m)) ==> r is Ok)
}

impl DefinitionLoader {
    /// Creates a new default loader, with every capability available.
    pub fn new() -> (r: DefinitionLoader)
        ensures
            r.yaml_supported,
            r.validation_supported,
    {
        DefinitionLoader { yaml_supported: true, validation_supported: true }
    }

    /// Decodes one parsed tree into a workflow definition, then
    /// validates it when validation is available.
    fn finish_workflow(&self, v: &serde_json::Value, yaml: bool) -> (r: Result<
        DocumentHandle,
        Error,
    >)
        ensures
            r matches Ok(h) ==> h.kind_of() == DocumentKind::Workflow && (self.validation_supported
                ==> h.valid()),
            !self.validation_supported ==> !(r is Ok),
            r matches Err(e) ==> decode_stage_error(e, yaml),
            workflow_outcome(self.validation_supported, json_model(*v), yaml, r),
    {
        let doc = match decode_workflow(v) {
            Ok(doc) => doc,
            Err(message) => {
                if yaml {
                    return Err(Error::YamlConversionFailed { message });
                } else {
                    return Err(Error::JsonConversionFailed { message });
                }
            },
        };
        if !self.validation_supported {
            return Err(Error::FeatureDisabled { required_feature: "validate".to_owned() });
        }
        match doc.validate_definition() {
            Ok(_) => Ok(DocumentHandle::Workflow(Rc::new(doc))),
            Err(e) => {
                proof {
                    assert(doc.decoded_facts(json_model(*v)));
                }
                Err(e)
            },
        }
    }

    /// Decodes one parsed tree into a functions resource document, then
    /// validates it when validation is available.
    fn finish_functions(&self, v: &serde_json::Value, yaml: bool) -> (r: Result<
        DocumentHandle,
        Error,
    >)
        ensures
            r matches Ok(h) ==> h.kind_of() == DocumentKind::Functions
                && (self.validation_supported ==> h.valid()),
            !self.validation_supported ==> !(r is Ok),
            r matches Err(e) ==> decode_stage_error(e, yaml),
            functions_outcome(self.validation_supported, json_model(*v), yaml, r),
    {
        let doc = match decode_functions_document(v) {
            Ok(doc) => doc,
            Err(message) => {
                if yaml {
                    return Err(Error::YamlConversionFailed { message });
                } else {
                    return Err(Error::JsonConversionFailed { message });
                }
            },
        };
        if !self.validation_supported {
            return Err(Error::FeatureDisabled { required_feature: "validate".to_owned() });
        }
        proof {
            lemma_functions_document_violations_by_view(&doc);
        }
        match doc.validate_definition() {
            Ok(_) => Ok(DocumentHandle::Functions(Rc::new(doc))),
            Err(e) => Err(e),
        }
    }

    /// What decoding and validating a fetched byte buffer yields, as a
    /// relation between the URI's path, the bytes and the result.
    ///
    /// The path's extension selects the wire format; an unknown or
    /// missing extension is rejected with the literal extension, and a
    /// YAML extension without the YAML capability with the missing
    /// capability's name. Parse failures carry the named parser's
    /// message under the format's own error tag; on bytes that parse,
    /// the outcome is what the parsed tree's content determines, per
    /// document kind, and only decode-stage errors can arise.
    pub open spec fn bytes_outcome(
        self,
        path: Seq<char>,
        bytes: Seq<u8>,
        kind: DocumentKind,
        r: Result<DocumentHandle, Error>,
    ) -> bool {
        let ext = file_ext_of(path);
        &&& (ext != "json"@ && ext != "yaml"@ && ext != "yml"@) ==> (r matches Err(e) && (
        e matches Error::UnsupportedFileFormat { file_ext } && file_ext@ == ext))
        &&& ((ext == "yaml"@ || ext == "yml"@) && !self.yaml_supported) ==> (r matches Err(e) && (
        e matches Error::FeatureDisabled { required_feature } && required_feature@ == "yaml"@))
        &&& (ext == "json"@ && json_parsed(bytes) is Err) ==> (r matches Err(e) && (
        e matches Error::JsonConversionFailed { message } && message@ == json_parsed(bytes)->Err_0))
        &&& ((ext == "yaml"@ || ext == "yml"@) && self.yaml_supported && yaml_parsed(bytes)
            is Err) ==> (r matches Err(e) && (e matches Error::YamlConversionFailed { message }
            && message@ == yaml_parsed(bytes)->Err_0))
        &&& (match json_parsed(bytes) {
            Ok(m) => (ext == "json"@) ==> {
                &&& (r matches Err(e) ==> decode_stage_error(e, false))
                &&& (kind == DocumentKind::Functions ==> functions_outcome(
                    self.validation_supported,
                    m,
                    false,
                    r,
                ))
                &&& (kind == DocumentKind::Workflow ==> workflow_outcome(
                    self.validation_supported,
                    m,
                    false,
                    r,
                ))
            },
            Err(_) => true,
        })
        &&& (match yaml_parsed(bytes) {
            Ok(m) => ((ext == "yaml"@ || ext == "yml"@) && self.yaml_supported) ==> {
                &&& (r matches Err(e) ==> decode_stage_error(e, true))
                &&& (kind == DocumentKind::Functions ==> functions_outcome(
                    self.validation_supported,
                    m,
                    true,
                    r,
                ))
                &&& (kind == DocumentKind::Workflow ==> workflow_outcome(
                    self.validation_supported,
                    m,
                    true,
                    r,
                ))
            },
            Err(_) => true,
        })
        &&& (r matches Ok(h) ==> h.kind_of() == kind && (self.validation_supported ==> h.valid())
            && (ext == "json"@ || ((ext == "yaml"@ || ext == "yml"@) && self.yaml_supported)))
        &&& (!self.validation_supported ==> !(r is Ok))
        &&& (r matches Err(e) ==> (e is UnsupportedFileFormat || (e matches Error::FeatureDisabled {
            required_feature,
        } && (required_feature@ == "yaml"@ || required_feature@ == "validate"@))
            || e is JsonConversionFailed || e is YamlConversionFailed || e is ValidationFailed))
    }

    /// Decodes and validates a fetched byte buffer according to the
    /// URI's file extension, as [`bytes_outcome`](Self::bytes_outcome)
    /// relates them.
    pub fn load_from_bytes(&self, uri: &Uri, bytes: &Vec<u8>, kind: DocumentKind) -> (r: Result<
        DocumentHandle,
        Error,
    >)
        ensures
            self.bytes_outcome(uri.path@, bytes@, kind, r),
    {
        proof {
            reveal_strlit("json");
            reveal_strlit("yaml");
            reveal_strlit("yml");
            assert("json"@ != "yaml"@) by {
                if "json"@ == "yaml"@ {
                    assert("json"@[0] == "yaml"@[0]);
                }
            }
            assert("json"@ != "yml"@) by {
                if "json"@ == "yml"@ {
                    assert("json"@.len() == "yml"@.len());
                }
            }
            assert("yaml"@ != "yml"@) by {
                if "yaml"@ == "yml"@ {
                    assert("yaml"@.len() == "yml"@.len());
                }
            }
        }
        let ext = uri.file_extension();
        if str_eq(ext.as_str(), "json") {
            let v = match parse_json(bytes.as_slice()) {
                Ok(v) => v,
                Err(message) => {
                    return Err(Error::JsonConversionFailed { message });
                },
            };
            match kind {
                DocumentKind::Workflow => self.finish_workflow(&v, false),
                DocumentKind::Functions => self.finish_functions(&v, false),
            }
        } else if str_eq(ext.as_str(), "yaml") || str_eq(ext.as_str(), "yml") {
            if !self.yaml_supported {
                return Err(Error::FeatureDisabled { required_feature: "yaml".to_owned() });
            }
            let v = match parse_yaml_as_json(bytes.as_slice()) {
                Ok(v) => v,
                Err(message) => {
                    return Err(Error::YamlConversionFailed { message });
                },
            };
            match kind {
                DocumentKind::Workflow => self.finish_workflow(&v, true),
                DocumentKind::Functions => self.finish_functions(&v, true),
            }
        } else {
            Err(Error::UnsupportedFileFormat { file_ext: ext })
        }
    }

    /// Loads the document of the requested kind located at the given
    /// URI and returns it in a shared handle.
    ///
    /// The scheme selects the byte source: `file` URIs are translated
    /// to a local path and read from the local byte source, `http` and
    /// `https` URIs are fetched by the remote byte source, and any
    /// other scheme — and only such a scheme — is rejected with the
    /// literal scheme. A `file` URI that has no local path — and only
    /// such a URI — is rejected carrying the URI verbatim; a failed
    /// fetch surfaces as a file I/O error carrying the byte source's
    /// message. The fetched bytes are then decoded and validated as
    /// [`bytes_outcome`](Self::bytes_outcome) relates them.
    pub fn load<F: FetchBytes>(&self, fetcher: &mut F, uri: &Uri, kind: DocumentKind) -> (r:
        Result<DocumentHandle, Error>)
        ensures
            (uri.scheme@ != "file"@ && uri.scheme@ != "http"@ && uri.scheme@ != "https"@) <==> (
            r matches Err(e) && (e matches Error::UnsupportedUriScheme { scheme } && scheme@
                == uri.scheme@)),
            r matches Err(e) && e is UnsupportedUriScheme ==> (uri.scheme@ != "file"@
                && uri.scheme@ != "http"@ && uri.scheme@ != "https"@),
            r matches Err(e) ==> (e matches Error::InvalidPathInFileUri { file_uri } ==> (
            uri.scheme@ == "file"@ && file_uri@ == uri.raw@)),
            r matches Err(e) && e is FileIo ==> (uri.scheme@ == "file"@ || uri.scheme@ == "http"@
                || uri.scheme@ == "https"@),
            (match r {
                Err(e) => !(e is UnsupportedUriScheme) && !(e is InvalidPathInFileUri) && !(
                e is FileIo),
                Ok(_) => true,
            }) ==> exists|bytes: Seq<u8>| self.bytes_outcome(uri.path@, bytes, kind, r),
            r matches Ok(h) ==> h.kind_of() == kind && (self.validation_supported ==> h.valid()),
            !self.validation_supported ==> !(r is Ok),
    {
        let fetched: Result<Vec<u8>, String> = if str_eq(uri.scheme(), "file") {
            match uri.to_local_path() {
                Some(path) => fetcher.fetch_local(path.as_str()),
                None => {
                    return Err(Error::InvalidPathInFileUri { file_uri: uri.as_str().to_owned() });
                },
            }
        } else if str_eq(uri.scheme(), "http") || str_eq(uri.scheme(), "https") {
            fetcher.fetch_remote(uri.as_str())
        } else {
            return Err(Error::UnsupportedUriScheme { scheme: uri.scheme().to_owned() });
        };
        let bytes = match fetched {
            Ok(b) => b,
            Err(message) => {
                return Err(Error::FileIo { message });
            },
        };
        let result = self.load_from_bytes(uri, &bytes, kind);
        proof {
            assert(self.bytes_outcome(uri.path@, bytes@, kind, result));
        }
        result
    }
}

} // verus!
