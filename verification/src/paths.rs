//! Joining file-system paths written as UTF-8 text.
use vstd::prelude::*;
use vstd::string::StringExecFns;
use vstd::string::StrSliceExecFns;

verus! {

/// `name` below `dir`: an absolute `name` stands alone; an empty `dir` adds nothing;
/// otherwise one `/` separates the two (none is added after a trailing `/`).
pub open spec fn spec_join(dir: Seq<char>, name: Seq<char>) -> Seq<char> {
    if name.len() > 0 && name[0] == '/' {
        name
    } else if dir.len() == 0 {
        name
    } else if dir.last() == '/' {
        dir + name
    } else {
        dir + seq!['/'] + name
    }
}

/// `name` below `dir`, as `Path::join` joins them.
pub fn join(dir: &str, name: &str) -> (r: String)
    ensures
        r@ == spec_join(dir@, name@),
{
    let name_len = name.unicode_len();
    let dir_len = dir.unicode_len();
    if name_len > 0 && name.get_char(0) == '/' {
        return String::from_str(name);
    }
    if dir_len == 0 {
        return String::from_str(name);
    }
    let mut out = String::from_str(dir);
    if dir.get_char(dir_len - 1) != '/' {
        out.append("/");
        proof {
            reveal_strlit("/");
            assert("/"@ =~= seq!['/']);
        }
    }
    out.append(name);
    out
}

/// Whether `name` is relative: it does not start with `/`.
pub open spec fn is_relative(name: Seq<char>) -> bool {
    !(name.len() > 0 && name[0] == '/')
}

/// Under one directory, different relative names give different paths.
pub proof fn lemma_join_injective(dir: Seq<char>, a: Seq<char>, b: Seq<char>)
    requires
        is_relative(a),
        is_relative(b),
        a != b,
    ensures
        spec_join(dir, a) != spec_join(dir, b),
{
    let prefix = if dir.len() == 0 {
        Seq::<char>::empty()
    } else if dir.last() == '/' {
        dir
    } else {
        dir + seq!['/']
    };
    assert(spec_join(dir, a) =~= prefix + a);
    assert(spec_join(dir, b) =~= prefix + b);
    if spec_join(dir, a) == spec_join(dir, b) {
        assert((prefix + a).subrange(prefix.len() as int, (prefix + a).len() as int) =~= a);
        assert((prefix + b).subrange(prefix.len() as int, (prefix + b).len() as int) =~= b);
    }
}

} // verus!
