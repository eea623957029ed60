//! Workflow function definitions.

use vstd::prelude::*;

use crate::definition::common::Metadata;
use crate::error::Report;
use crate::uri::Uri;
use crate::validation::{
    child,
    child_path,
    indexed,
    check_min_len,
    check_opt_min_len,
    check_option,
    check_seq,
    check_seq_min_len,
    min_len_vio,
    option_vio,
    opt_min_len_vio,
    seq_min_len_vio,
    seq_vio,
    Validated,
    ValidateDefinition,
};

verus! {

/// Workflow function definitions: either a URI to a resource containing
/// them, or the definitions written inline.
#[derive(Clone, Debug)]
pub enum Functions {
    /// URI to a resource containing function definitions.
    Uri(Uri),
    /// Inline function definitions.
    Inline(Vec<Function>),
}

impl Validated for Functions {
    open spec fn violations(&self, path: Seq<char>) -> Seq<(Seq<char>, Seq<char>)> {
        match *self {
            Functions::Uri(u) => Seq::<(Seq<char>, Seq<char>)>::empty(),
            Functions::Inline(defs) => seq_min_len_vio(path, defs@.len()),
        }
    }

    fn validate_into(&self, path: &str, report: &mut Report) {
        match self {
            Functions::Uri(u) => {
                proof {
                    assert(report@ =~= report@ + self.violations(path@));
                }
            },
            Functions::Inline(defs) => {
                check_seq_min_len(report, path.to_owned(), defs.len());
            },
        }
    }
}

/// Function definition.
#[derive(Clone, Debug)]
pub struct Function {
    /// Unique function name.
    pub name: String,
    /// Operation specification; its format depends on the function type.
    pub operation: String,
    /// The function type.
    pub function_type: FunctionType,
    /// References an auth definition name used to access the resource
    /// named by the operation.
    pub auth_ref: Option<String>,
    /// Function metadata.
    pub metadata: Option<Metadata>,
}

impl Validated for Function {
    open spec fn violations(&self, path: Seq<char>) -> Seq<(Seq<char>, Seq<char>)> {
        min_len_vio(child(path, "name"@), self.name@) + min_len_vio(
            child(path, "operation"@),
            self.operation@,
        ) + opt_min_len_vio(child(path, "auth_ref"@), self.auth_ref) + option_vio(
            child(path, "metadata"@),
            self.metadata,
        )
    }

    fn validate_into(&self, path: &str, report: &mut Report) {
        check_min_len(report, child_path(path, "name"), self.name.as_str());
        check_min_len(report, child_path(path, "operation"), self.operation.as_str());
        check_opt_min_len(report, child_path(path, "auth_ref"), &self.auth_ref);
        check_option(report, child_path(path, "metadata"), &self.metadata);
        proof {
            assert(final(report)@ =~= old(report)@ + self.violations(path@));
        }
    }
}

/// The content of a function definition: its fields as mathematical
/// values, with metadata collapsed to the map it denotes.
pub struct FunctionView {
    /// Unique function name.
    pub name: Seq<char>,
    /// Operation specification.
    pub operation: Seq<char>,
    /// The function type.
    pub function_type: FunctionType,
    /// Auth definition reference.
    pub auth_ref: Option<Seq<char>>,
    /// Function metadata, as the property map it denotes.
    pub metadata: Option<Map<Seq<char>, Seq<char>>>,
}

impl View for Function {
    type V = FunctionView;

    open spec fn view(&self) -> FunctionView {
        FunctionView {
            name: self.name@,
            operation: self.operation@,
            function_type: self.function_type,
            auth_ref: match self.auth_ref {
                Some(s) => Some(s@),
                None => None,
            },
            metadata: match self.metadata {
                Some(md) => Some(md.map_view()),
                None => None,
            },
        }
    }
}

/// The violations of a function definition, computed from its content.
pub open spec fn function_view_violations(f: FunctionView, path: Seq<char>) -> Seq<
    (Seq<char>, Seq<char>),
> {
    min_len_vio(child(path, "name"@), f.name) + min_len_vio(child(path, "operation"@), f.operation)
        + (match f.auth_ref {
        Some(s) => min_len_vio(child(path, "auth_ref"@), s),
        None => Seq::<(Seq<char>, Seq<char>)>::empty(),
    })
}

/// A function's violations depend on its content alone.
pub proof fn lemma_function_violations_by_view(f: &Function, path: Seq<char>)
    ensures
        f.violations(path) == function_view_violations(f@, path),
{
    assert(f.violations(path) =~= function_view_violations(f@, path));
}

/// The violations of a sequence of function definitions, computed from
/// their contents.
pub open spec fn function_seq_view_violations(fv: Seq<FunctionView>, path: Seq<char>) -> Seq<
    (Seq<char>, Seq<char>),
>
    decreases fv.len(),
{
    if fv.len() == 0 {
        Seq::<(Seq<char>, Seq<char>)>::empty()
    } else {
        function_seq_view_violations(fv.drop_last(), path) + function_view_violations(
            fv.last(),
            indexed(path, fv.len() - 1),
        )
    }
}

/// A function sequence's violations depend on its contents alone.
pub proof fn lemma_function_seq_violations_by_view(fns: Seq<Function>, path: Seq<char>)
    ensures
        seq_vio(path, fns) == function_seq_view_violations(
            fns.map_values(|f: Function| f@),
            path,
        ),
    decreases fns.len(),
{
    let fv = fns.map_values(|f: Function| f@);
    if fns.len() == 0 {
        assert(seq_vio(path, fns) =~= function_seq_view_violations(fv, path));
    } else {
        lemma_function_seq_violations_by_view(fns.drop_last(), path);
        assert(fns.drop_last().map_values(|f: Function| f@) =~= fv.drop_last());
        lemma_function_violations_by_view(&fns.last(), indexed(path, fns.len() - 1));
        assert(fv.last() == fns.last()@);
    }
}

/// A standalone functions resource: the document a functions URI points
/// to, holding reusable function definitions.
#[derive(Clone, Debug)]
pub struct FunctionsDocument {
    /// The function definitions.
    pub functions: Vec<Function>,
}

impl View for FunctionsDocument {
    type V = Seq<FunctionView>;

    open spec fn view(&self) -> Seq<FunctionView> {
        self.functions@.map_values(|f: Function| f@)
    }
}

/// The violations of a functions resource document, computed from its
/// content.
pub open spec fn functions_document_view_violations(fv: Seq<FunctionView>) -> Seq<
    (Seq<char>, Seq<char>),
> {
    seq_min_len_vio(child(Seq::<char>::empty(), "functions"@), fv.len())
        + function_seq_view_violations(fv, child(Seq::<char>::empty(), "functions"@))
}

/// A functions document's violations depend on its content alone.
pub proof fn lemma_functions_document_violations_by_view(doc: &FunctionsDocument)
    ensures
        doc.doc_violations() == functions_document_view_violations(doc@),
{
    lemma_function_seq_violations_by_view(
        doc.functions@,
        child(Seq::<char>::empty(), "functions"@),
    );
}

impl Validated for FunctionsDocument {
    open spec fn violations(&self, path: Seq<char>) -> Seq<(Seq<char>, Seq<char>)> {
        seq_min_len_vio(child(path, "functions"@), self.functions@.len()) + seq_vio(
            child(path, "functions"@),
            self.functions@,
        )
    }

    fn validate_into(&self, path: &str, report: &mut Report) {
        check_seq_min_len(report, child_path(path, "functions"), self.functions.len());
        check_seq(report, child_path(path, "functions").as_str(), &self.functions);
        proof {
            assert(final(report)@ =~= old(report)@ + self.violations(path@));
        }
    }
}


impl ValidateDefinition for FunctionsDocument {
    open spec fn doc_violations(&self) -> Seq<(Seq<char>, Seq<char>)> {
        self.violations(Seq::<char>::empty())
    }

    fn validate_definition(&self) -> (r: Result<(), crate::error::Error>) {
        let mut report = Report::new();
        let root = "".to_owned();
        proof {
            reveal_strlit("");
            assert(root@ =~= Seq::<char>::empty());
        }
        self.validate_into(root.as_str(), &mut report);
        proof {
            assert(report@ =~= self.doc_violations());
        }
        if report.len() == 0 {
            Ok(())
        } else {
            Err(crate::error::Error::ValidationFailed { report })
        }
    }
}

/// Function type.
#[derive(Clone, Copy, Debug, PartialEq, Eq, Structural)]
pub enum FunctionType {
    /// REST endpoint.
    Rest,
    /// Asynchronous API operation.
    AsyncApi,
    /// gRPC endpoint.
    GRpc,
    /// GraphQL service method.
    GraphQL,
    /// OData service.
    OData,
    /// An inlined expression in the workflow's expression language.
    Expression,
    /// Custom, runtime-specific function type.
    Custom,
}

} // verus!
