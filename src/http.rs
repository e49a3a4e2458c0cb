//! The `http` package: the host types and functions of an HTTP client.
//! The calls themselves are made by the host; this package registers them.
use vstd::prelude::*;
use vstd::string::StringSliceAdditionalSpecFns;
use crate::context::{distinct, fn_hashes, item_hash, ContextError, FnEntry, FnKind, Module};
use crate::hash::inst_hash;

verus! {

/// The path prefix of the package.
pub open spec fn http_prefix() -> Seq<&'static str> {
    seq!["http"]
}

/// The hashes of the package's types, in order of registration.
pub open spec fn http_types() -> Seq<u64> {
    seq![
        item_hash(http_prefix(), seq!["Client"]),
        item_hash(http_prefix(), seq!["Response"]),
        item_hash(http_prefix(), seq!["RequestBuilder"]),
        item_hash(http_prefix(), seq!["StatusCode"]),
        item_hash(http_prefix(), seq!["Error"]),
    ]
}

/// The hashes of the package's functions and instance functions, in order
/// of registration.
pub open spec fn http_functions() -> Seq<u64> {
    seq![
        item_hash(http_prefix(), seq!["Client", "new"]),
        item_hash(http_prefix(), seq!["get"]),
        inst_hash(item_hash(http_prefix(), seq!["Client"]), "get".spec_bytes()),
        inst_hash(item_hash(http_prefix(), seq!["Client"]), "post".spec_bytes()),
        inst_hash(item_hash(http_prefix(), seq!["Response"]), "text".spec_bytes()),
        inst_hash(item_hash(http_prefix(), seq!["Response"]), "status".spec_bytes()),
        inst_hash(item_hash(http_prefix(), seq!["RequestBuilder"]), "send".spec_bytes()),
        inst_hash(item_hash(http_prefix(), seq!["RequestBuilder"]), "body_bytes".spec_bytes()),
        inst_hash(item_hash(http_prefix(), seq!["StatusCode"]), "display".spec_bytes()),
    ]
}

/// How each of the package's functions is called, and how many arguments
/// it takes (an instance function counting its receiver), in order of
/// registration.
pub open spec fn http_kinds() -> Seq<(FnKind, usize)> {
    seq![
        (FnKind::Function, 0usize),
        (FnKind::AsyncFunction, 1usize),
        (FnKind::AsyncInstFn, 2usize),
        (FnKind::AsyncInstFn, 2usize),
        (FnKind::AsyncInstFn, 1usize),
        (FnKind::InstFn, 1usize),
        (FnKind::AsyncInstFn, 1usize),
        (FnKind::AsyncInstFn, 2usize),
        (FnKind::InstFn, 2usize),
    ]
}

/// The package's function entries: hash, kind and arity.
pub open spec fn http_entries() -> Seq<FnEntry> {
    Seq::new(9, |i: int| FnEntry { hash: http_functions()[i], kind: http_kinds()[i].0, args: http_kinds()[i].1 })
}

/// Where a hash repeats one of those registered before it, the whole list
/// has a repeat.
proof fn lemma_repeat(full: Seq<u64>, k: int, before: Seq<u64>)
    requires
        0 <= k < full.len(),
        full.take(k) == before,
        before.contains(full[k]),
    ensures
        !distinct(full),
{
    let j = choose|j: int| 0 <= j < before.len() && before[j] == full[k];
    assert(full[j] == full.take(k)[j]);
}

/// Install the `http` package: the types `Client`, `Response`,
/// `RequestBuilder`, `StatusCode` and `Error`, the functions `Client::new`
/// and `get`, and the instance functions `get` and `post` of `Client`,
/// `text` and `status` of `Response`, `send` and `body_bytes` of
/// `RequestBuilder`, and `display` of `StatusCode`.
pub fn module() -> (r: Result<Module, ContextError>)
    ensures
        r is Ok <==> distinct(http_types()) && distinct(http_functions()),
        r is Ok ==> r->Ok_0.wf() && r->Ok_0.prefix@ == http_prefix() && r->Ok_0.types@ == http_types()
            && fn_hashes(r->Ok_0.functions@) == http_functions() && r->Ok_0.functions@ == http_entries(),
{
    let prefix = vec!["http"];
    assert(prefix@ == http_prefix());
    let mut module = Module::new(prefix.as_slice());
    let ghost ts = http_types();
    let ghost fs = http_functions();
    let ghost es = http_entries();

    let path = vec!["Client"];
    assert(path@ == seq!["Client"]);
    let ghost before = module.types@;
    assert(before == ts.take(0));
    let r = module.ty(path.as_slice());
    if r.is_err() {
        proof {
            lemma_repeat(ts, 0, before);
        }
        return Err(r.unwrap_err());
    }
    let t_client = r.unwrap();
    assert(module.types@ =~= ts.take(1));

    let path = vec!["Response"];
    assert(path@ == seq!["Response"]);
    let ghost before = module.types@;
    assert(before == ts.take(1));
    let r = module.ty(path.as_slice());
    if r.is_err() {
        proof {
            lemma_repeat(ts, 1, before);
        }
        return Err(r.unwrap_err());
    }
    let t_response = r.unwrap();
    assert(module.types@ =~= ts.take(2));

    let path = vec!["RequestBuilder"];
    assert(path@ == seq!["RequestBuilder"]);
    let ghost before = module.types@;
    assert(before == ts.take(2));
    let r = module.ty(path.as_slice());
    if r.is_err() {
        proof {
            lemma_repeat(ts, 2, before);
        }
        return Err(r.unwrap_err());
    }
    let t_requestbuilder = r.unwrap();
    assert(module.types@ =~= ts.take(3));

    let path = vec!["StatusCode"];
    assert(path@ == seq!["StatusCode"]);
    let ghost before = module.types@;
    assert(before == ts.take(3));
    let r = module.ty(path.as_slice());
    if r.is_err() {
        proof {
            lemma_repeat(ts, 3, before);
        }
        return Err(r.unwrap_err());
    }
    let t_statuscode = r.unwrap();
    assert(module.types@ =~= ts.take(4));

    let path = vec!["Error"];
    assert(path@ == seq!["Error"]);
    let ghost before = module.types@;
    assert(before == ts.take(4));
    let r = module.ty(path.as_slice());
    if r.is_err() {
        proof {
            lemma_repeat(ts, 4, before);
        }
        return Err(r.unwrap_err());
    }
    let t_error = r.unwrap();
    assert(module.types@ =~= ts.take(5));

    assert(ts.take(5) =~= ts);

    let path = vec!["Client", "new"];
    assert(path@ == seq!["Client", "new"]);
    let ghost before = fn_hashes(module.functions@);
    assert(before =~= fs.take(0));
    let r = module.function(path.as_slice(), 0);
    if r.is_err() {
        proof {
            lemma_repeat(fs, 0, before);
        }
        return Err(r.unwrap_err());
    }
    assert(fn_hashes(module.functions@) =~= fs.take(1));
    assert(module.functions@ =~= es.take(1));

    let path = vec!["get"];
    assert(path@ == seq!["get"]);
    let ghost before = fn_hashes(module.functions@);
    assert(before =~= fs.take(1));
    let r = module.async_function(path.as_slice(), 1);
    if r.is_err() {
        proof {
            lemma_repeat(fs, 1, before);
        }
        return Err(r.unwrap_err());
    }
    assert(fn_hashes(module.functions@) =~= fs.take(2));
    assert(module.functions@ =~= es.take(2));

    let ghost before = fn_hashes(module.functions@);
    assert(before =~= fs.take(2));
    let r = module.async_inst_fn(t_client, "get", 2);
    if r.is_err() {
        proof {
            lemma_repeat(fs, 2, before);
        }
        return Err(r.unwrap_err());
    }
    assert(fn_hashes(module.functions@) =~= fs.take(3));
    assert(module.functions@ =~= es.take(3));

    let ghost before = fn_hashes(module.functions@);
    assert(before =~= fs.take(3));
    let r = module.async_inst_fn(t_client, "post", 2);
    if r.is_err() {
        proof {
            lemma_repeat(fs, 3, before);
        }
        return Err(r.unwrap_err());
    }
    assert(fn_hashes(module.functions@) =~= fs.take(4));
    assert(module.functions@ =~= es.take(4));

    let ghost before = fn_hashes(module.functions@);
    assert(before =~= fs.take(4));
    let r = module.async_inst_fn(t_response, "text", 1);
    if r.is_err() {
        proof {
            lemma_repeat(fs, 4, before);
        }
        return Err(r.unwrap_err());
    }
    assert(fn_hashes(module.functions@) =~= fs.take(5));
    assert(module.functions@ =~= es.take(5));

    let ghost before = fn_hashes(module.functions@);
    assert(before =~= fs.take(5));
    let r = module.inst_fn(t_response, "status", 1);
    if r.is_err() {
        proof {
            lemma_repeat(fs, 5, before);
        }
        return Err(r.unwrap_err());
    }
    assert(fn_hashes(module.functions@) =~= fs.take(6));
    assert(module.functions@ =~= es.take(6));

    let ghost before = fn_hashes(module.functions@);
    assert(before =~= fs.take(6));
    let r = module.async_inst_fn(t_requestbuilder, "send", 1);
    if r.is_err() {
        proof {
            lemma_repeat(fs, 6, before);
        }
        return Err(r.unwrap_err());
    }
    assert(fn_hashes(module.functions@) =~= fs.take(7));
    assert(module.functions@ =~= es.take(7));

    let ghost before = fn_hashes(module.functions@);
    assert(before =~= fs.take(7));
    let r = module.async_inst_fn(t_requestbuilder, "body_bytes", 2);
    if r.is_err() {
        proof {
            lemma_repeat(fs, 7, before);
        }
        return Err(r.unwrap_err());
    }
    assert(fn_hashes(module.functions@) =~= fs.take(8));
    assert(module.functions@ =~= es.take(8));

    let ghost before = fn_hashes(module.functions@);
    assert(before =~= fs.take(8));
    let r = module.inst_fn(t_statuscode, "display", 2);
    if r.is_err() {
        proof {
            lemma_repeat(fs, 8, before);
        }
        return Err(r.unwrap_err());
    }
    assert(fn_hashes(module.functions@) =~= fs.take(9));
    assert(module.functions@ =~= es.take(9));

    assert(fs.take(9) =~= fs);
    assert(es.take(9) =~= es);
    Ok(module)
}

} // verus!
