//! How a file is evaluated for the server under test.

use vstd::prelude::*;

verus! {

/// What the server learns of a file: what there is to say of it, and its syntax tree if
/// it has one.
pub struct LspEvalResult<A, D> {
    pub diagnostics: Vec<D>,
    pub ast: Option<A>,
}

/// The context of a server under test.
pub struct TestServerContext {}

/// `f` may have made each of `outputs` of the input at the same place.
pub open spec fn mapped<L, D, F: Fn(L) -> D>(f: F, inputs: Seq<L>, outputs: Seq<D>) -> bool {
    &&& outputs.len() == inputs.len()
    &&& forall|i: int| 0 <= i < inputs.len() ==> f.ensures((inputs[i],), #[trigger] outputs[i])
}

/// Applies `f` to each item, in order.
fn into_map<L, D, F: Fn(L) -> D>(items: Vec<L>, f: F) -> (outputs: Vec<D>)
    requires
        forall|item: L| f.requires((item,)),
    ensures
        mapped(f, items@, outputs@),
{
    let mut outputs: Vec<D> = Vec::new();
    for item in it: items
        invariant
            it.seq() == items@,
            forall|item: L| f.requires((item,)),
            outputs@.len() == it.index(),
            forall|i: int|
                0 <= i < outputs@.len() ==> f.ensures((items@[i],), #[trigger] outputs@[i]),
    {
        outputs.push(f(item));
    }
    outputs
}

impl TestServerContext {
    /// Evaluates a file: one that can be parsed gives its syntax tree, and a diagnostic
    /// for each lint of it; one that cannot gives a diagnostic for the error alone.
    pub fn parse_file_with_contents<A, E, L, D, Parse, Lint, OfLint, OfError>(
        &self,
        filename: &str,
        content: String,
        parse: Parse,
        lint: Lint,
        of_lint: OfLint,
        of_error: OfError,
    ) -> (result: LspEvalResult<A, D>) where
        Parse: Fn(&str, String) -> Result<A, E>,
        Lint: Fn(&A) -> Vec<L>,
        OfLint: Fn(L) -> D,
        OfError: Fn(&str, E) -> D,

        requires
            parse.requires((filename, content)),
            forall|ast: &A| lint.requires((ast,)),
            forall|l: L| of_lint.requires((l,)),
            forall|e: E| of_error.requires((filename, e)),
        ensures
            match result.ast {
                Some(ast) => parse.ensures((filename, content), Ok(ast)) && exists|lints: Vec<L>|
                    lint.ensures((&ast,), lints) && mapped(of_lint, lints@, result.diagnostics@),
                None => exists|e: E|
                    parse.ensures((filename, content), Err(e)) && result.diagnostics@.len() == 1
                        && of_error.ensures((filename, e), result.diagnostics@[0]),
            },
    {
        match parse(filename, content) {
            Ok(ast) => {
                let lints = lint(&ast);
                let diagnostics = into_map(lints, of_lint);
                LspEvalResult { diagnostics, ast: Some(ast) }
            },
            Err(e) => LspEvalResult { diagnostics: vec![of_error(filename, e)], ast: None },
        }
    }
}

} // verus!
