//! The `std::result` package: the `Result` type and its two constructors.
use vstd::prelude::*;
use crate::context::{fn_hashes, item_hash, ContextError, FnEntry, FnKind, Module};

verus! {

/// The path prefix of the package.
pub open spec fn result_prefix() -> Seq<&'static str> {
    seq!["std", "result"]
}

/// Install the `std::result` package: the type `Result`, and the functions
/// `Result::Err` and `Result::Ok` of one argument each.
pub fn module() -> (r: Result<Module, ContextError>)
    ensures
        r is Ok <==> item_hash(result_prefix(), seq!["Result", "Err"]) != item_hash(
            result_prefix(),
            seq!["Result", "Ok"],
        ),
        r is Ok ==> r->Ok_0.wf() && r->Ok_0.prefix@ == result_prefix()
            && r->Ok_0.types@ == seq![item_hash(result_prefix(), seq!["Result"])]
            && r->Ok_0.functions@ == seq![
                FnEntry { hash: item_hash(result_prefix(), seq!["Result", "Err"]), kind: FnKind::Function, args: 1 },
                FnEntry { hash: item_hash(result_prefix(), seq!["Result", "Ok"]), kind: FnKind::Function, args: 1 },
            ],
{
    let prefix = vec!["std", "result"];
    assert(prefix@ == result_prefix());
    let mut module = Module::new(prefix.as_slice());
    let ty = vec!["Result"];
    assert(ty@ == seq!["Result"]);
    module.ty(ty.as_slice())?;
    let err = vec!["Result", "Err"];
    assert(err@ == seq!["Result", "Err"]);
    let ghost h_err = item_hash(result_prefix(), seq!["Result", "Err"]);
    let ghost h_ok = item_hash(result_prefix(), seq!["Result", "Ok"]);
    module.function(err.as_slice(), 1)?;
    assert(fn_hashes(module.functions@) =~= seq![h_err]);
    let ok = vec!["Result", "Ok"];
    assert(ok@ == seq!["Result", "Ok"]);
    let r = module.function(ok.as_slice(), 1);
    assert(seq![h_err].contains(h_ok) <==> h_err == h_ok) by {
        if seq![h_err].contains(h_ok) {
            assert(seq![h_err][0] == h_ok);
        }
        if h_err == h_ok {
            assert(seq![h_err][0] == h_ok);
        }
    }
    r?;
    assert(module.types@ =~= seq![item_hash(result_prefix(), seq!["Result"])]);
    Ok(module)
}

} // verus!
