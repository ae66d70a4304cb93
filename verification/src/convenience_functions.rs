use vstd::prelude::*;

verus! {

/// The characters that carry meaning in a regular expression and must be
/// backslash-escaped for a literal search.
pub open spec fn is_regex_meta(c: char) -> bool {
    ||| c == '['
    ||| c == ']'
    ||| c == '('
    ||| c == ')'
    ||| c == '{'
    ||| c == '}'
    ||| c == '.'
    ||| c == '*'
    ||| c == '+'
    ||| c == '?'
    ||| c == '^'
    ||| c == '$'
    ||| c == '\\'
    ||| c == '|'
}

/// One character of the escaped form: metacharacters gain a leading
/// backslash, every other character is kept as it is.
pub open spec fn escaped_char(c: char) -> Seq<char> {
    if is_regex_meta(c) {
        seq!['\\', c]
    } else {
        seq![c]
    }
}

/// The escaped form of a whole pattern: each character's escaped form,
/// concatenated in order.
pub open spec fn escaped(s: Seq<char>) -> Seq<char>
    decreases s.len(),
{
    if s.len() == 0 {
        Seq::empty()
    } else {
        escaped(s.drop_last()) + escaped_char(s.last())
    }
}

fn is_meta_char(c: char) -> (r: bool)
    ensures
        r == is_regex_meta(c),
{
    c == '[' || c == ']' || c == '(' || c == ')' || c == '{' || c == '}' || c == '.' || c == '*'
        || c == '+' || c == '?' || c == '^' || c == '$' || c == '\\' || c == '|'
}

/// Backslash-escapes every regex metacharacter of `input`, so that the
/// result compiles to a regex matching exactly the literal text of `input`.
/// When `avoid_regex` is not set the input is returned unchanged.
pub fn escape_regex_string(input: &str, avoid_regex: bool) -> (r: String)
    ensures
        avoid_regex ==> r@ == escaped(input@),
        !avoid_regex ==> r@ == input@,
{
    if !avoid_regex {
        return input.to_owned();
    }

    let n = input.unicode_len();
    let mut result = String::new();
    let mut i: usize = 0;
    while i < n
        invariant
            n == input@.len(),
            i <= n,
            result@ == escaped(input@.subrange(0, i as int)),
        decreases n - i,
    {
        let c = input.get_char(i);
        if is_meta_char(c) {
            result.append("\\");
        }
        let piece = input.substring_char(i, i + 1);
        result.append(piece);
        proof {
            reveal_strlit("\\");
            let pre = input@.subrange(0, i as int);
            let post = input@.subrange(0, i + 1);
            assert(post.drop_last() =~= pre);
            assert(post.last() == input@[i as int]);
            assert(piece@ =~= seq![input@[i as int]]);
            assert(result@ =~= escaped(pre) + escaped_char(post.last()));
        }
        i = i + 1;
    }
    proof {
        assert(input@.subrange(0, n as int) =~= input@);
    }
    result
}

/// Picks the directory a search starts from: the current directory when
/// `args_cd` was requested (falling back to `"."` when it could not be
/// read as text), else the directory named on the command line, else the
/// default top-level root.
pub fn resolve_directory(args_cd: bool, current_dir: Option<String>, args_directory: Option<
    String,
>) -> (r: String)
    ensures
        args_cd ==> r@ == match current_dir {
            Some(d) => d@,
            None => "."@,
        },
        !args_cd ==> r@ == match args_directory {
            Some(d) => d@,
            None => "/"@,
        },
{
    if args_cd {
        match current_dir {
            Some(d) => d,
            None => ".".to_owned(),
        }
    } else {
        match args_directory {
            Some(d) => d,
            None => "/".to_owned(),
        }
    }
}

/// The number of worker threads to use: the detected hardware parallelism
/// when it is known, else one.
pub fn get_threads(detected: Option<usize>) -> (r: usize)
    ensures
        r == match detected {
            Some(n) => n,
            None => 1usize,
        },
{
    match detected {
        Some(n) => n,
        None => 1,
    }
}

} // verus!
