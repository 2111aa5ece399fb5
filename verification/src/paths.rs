use vstd::prelude::*;
use crate::errors::LoadError;

verus! {

/// The two on-disk encodings a server identity can arrive in: a
/// password-protected PKCS#12 bundle, or a PEM certificate/key pair.
#[derive(Debug, Clone, Copy, PartialEq, Eq, Structural)]
pub enum CertType {
    Pfx,
    Pem,
}

/// The index of the last occurrence of `c` in `s`, or -1 when `s` has none.
pub open spec fn last_index_of(s: Seq<char>, c: char) -> int
    decreases s.len(),
{
    if s.len() == 0 {
        -1
    } else if s[s.len() - 1] == c {
        s.len() - 1
    } else {
        last_index_of(s.drop_last(), c)
    }
}

proof fn lemma_last_index_bounds(s: Seq<char>, c: char)
    ensures
        -1 <= last_index_of(s, c) < s.len(),
    decreases s.len(),
{
    if s.len() != 0 && s[s.len() - 1] != c {
        lemma_last_index_bounds(s.drop_last(), c);
    }
}

proof fn lemma_last_index_push(s: Seq<char>, c: char, t: char)
    ensures
        last_index_of(s.push(c), t) == if c == t {
            s.len() as int
        } else {
            last_index_of(s, t)
        },
{
    assert(s.push(c).drop_last() =~= s);
    assert(s.push(c)[s.push(c).len() - 1] == c);
}

/// A path with its trailing separators removed, as the platform's path
/// handling ignores them when it names a file.
pub open spec fn strip_trailing_slashes(s: Seq<char>) -> Seq<char>
    decreases s.len(),
{
    if s.len() > 0 && s[s.len() - 1] == '/' {
        strip_trailing_slashes(s.drop_last())
    } else {
        s
    }
}

/// The final component of a path: what follows the last '/' once trailing
/// separators are stripped.
pub open spec fn spec_file_name(path: Seq<char>) -> Seq<char> {
    let p = strip_trailing_slashes(path);
    p.subrange(last_index_of(p, '/') + 1, p.len() as int)
}

/// The extension of the file a path names: what follows the last '.' of the
/// final path component, unless that component has no '.', begins with its
/// only one (a hidden file such as ".key" has no extension), or is the
/// parent-directory component "..".
pub open spec fn spec_extension(path: Seq<char>) -> Option<Seq<char>> {
    let name = spec_file_name(path);
    let d = last_index_of(name, '.');
    if name == seq!['.', '.'] || d <= 0 {
        None
    } else {
        Some(name.subrange(d + 1, name.len() as int))
    }
}

/// Find the extension of the file `path` names, if it has one.
pub fn extension_of(path: &str) -> (r: Option<&str>)
    ensures
        r is Some <==> spec_extension(path@) is Some,
        r matches Some(e) ==> spec_extension(path@) matches Some(se) && e@ == se,
{
    let n = path.unicode_len();
    proof {
        assert(path@.subrange(0, n as int) =~= path@);
    }
    // Drop trailing separators: they do not change which file is named.
    let mut end: usize = n;
    while end > 0 && path.get_char(end - 1) == '/'
        invariant
            end <= n,
            n == path@.len(),
            strip_trailing_slashes(path@) == strip_trailing_slashes(
                path@.subrange(0, end as int),
            ),
        decreases end,
    {
        proof {
            assert(path@.subrange(0, end as int).drop_last() =~= path@.subrange(
                0,
                end - 1 as int,
            ));
        }
        end = end - 1;
    }
    proof {
        if end > 0 {
            assert(path@.subrange(0, end as int)[end - 1] == path@[end - 1]);
        }
        assert(strip_trailing_slashes(path@.subrange(0, end as int)) == path@.subrange(
            0,
            end as int,
        ));
    }
    // `end` now delimits the stripped path; find its final component.
    let mut start: usize = 0;
    let mut i: usize = 0;
    while i < end
        invariant
            i <= end <= n,
            n == path@.len(),
            path@.subrange(0, end as int) == strip_trailing_slashes(path@),
            start as int == last_index_of(path@.subrange(0, i as int), '/') + 1,
            start <= i,
        decreases end - i,
    {
        let c = path.get_char(i);
        proof {
            assert(path@.subrange(0, i + 1 as int) =~= path@.subrange(0, i as int).push(
                path@[i as int],
            ));
            lemma_last_index_push(path@.subrange(0, i as int), path@[i as int], '/');
        }
        if c == '/' {
            start = i + 1;
        }
        i = i + 1;
    }
    // The component is path[start..end]; find its last '.'.
    let ghost stripped = path@.subrange(0, end as int);
    let ghost name = spec_file_name(path@);
    proof {
        assert(name =~= path@.subrange(start as int, end as int));
    }
    let mut dot: usize = 0;
    let mut has_dot = false;
    let mut j: usize = start;
    while j < end
        invariant
            start <= j <= end <= n,
            n == path@.len(),
            ({
                let d = last_index_of(path@.subrange(start as int, j as int), '.');
                if d <= 0 {
                    !has_dot
                } else {
                    has_dot && dot == start + d && dot < j
                }
            }),
        decreases end - j,
    {
        let c = path.get_char(j);
        proof {
            assert(path@.subrange(start as int, j + 1 as int) =~= path@.subrange(
                start as int,
                j as int,
            ).push(path@[j as int]));
            lemma_last_index_push(path@.subrange(start as int, j as int), path@[j as int], '.');
        }
        if c == '.' && j > start {
            dot = j;
            has_dot = true;
        }
        j = j + 1;
    }
    proof {
        lemma_last_index_bounds(name, '.');
    }
    if end - start == 2 && path.get_char(start) == '.' && path.get_char(start + 1) == '.' {
        proof {
            assert(name =~= seq!['.', '.']);
        }
        return None;
    }
    proof {
        if name == seq!['.', '.'] {
            assert(name.len() == 2);
            assert(name[0] == '.' && name[1] == '.');
            assert(path@[start as int] == '.' && path@[start + 1 as int] == '.');
            assert(false);
        }
    }
    if has_dot {
        let e = path.substring_char(dot + 1, end);
        proof {
            let d = last_index_of(name, '.');
            assert(name.subrange(d + 1, name.len() as int) =~= path@.subrange(
                dot + 1 as int,
                end as int,
            ));
        }
        Some(e)
    } else {
        None
    }
}

/// Lower-case a single character, ASCII style: the letters 'A' to 'Z' map to
/// their lower-case forms and every other character is unchanged.
pub open spec fn spec_lower_char(c: char) -> char {
    if 'A' <= c && c <= 'Z' {
        ((c as u8 + 32) as u8) as char
    } else {
        c
    }
}

/// A character sequence lower-cased, ASCII style.
pub open spec fn spec_lower(s: Seq<char>) -> Seq<char> {
    s.map_values(|c: char| spec_lower_char(c))
}

fn lower_char(c: char) -> (r: char)
    ensures
        r == spec_lower_char(c),
{
    if 'A' <= c && c <= 'Z' {
        ((c as u8) + 32) as char
    } else {
        c
    }
}

/// Relies on std's `String::push`: appends exactly one character.
#[verifier::external_body]
fn push_char(s: &mut String, c: char)
    ensures
        final(s)@ == old(s)@ + seq![c],
{
    s.push(c);
}

/// Lower-case a string, ASCII style.
pub fn lower_string(s: &str) -> (r: String)
    ensures
        r@ == spec_lower(s@),
{
    let n = s.unicode_len();
    let mut out = String::new();
    let mut i: usize = 0;
    while i < n
        invariant
            i <= n,
            n == s@.len(),
            out@ == spec_lower(s@.subrange(0, i as int)),
        decreases n - i,
    {
        let c = lower_char(s.get_char(i));
        push_char(&mut out, c);
        proof {
            assert(s@.subrange(0, i + 1 as int) =~= s@.subrange(0, i as int).push(s@[i as int]));
            assert(spec_lower(s@.subrange(0, i + 1 as int)) =~= spec_lower(
                s@.subrange(0, i as int),
            ).push(spec_lower_char(s@[i as int])));
        }
        i = i + 1;
    }
    proof {
        assert(s@.subrange(0, n as int) =~= s@);
    }
    out
}

/// Whether two strings are equal once both are lower-cased, ASCII style.
pub fn eq_ignore_case(a: &str, b: &str) -> (r: bool)
    ensures
        r == (spec_lower(a@) == spec_lower(b@)),
{
    let na = a.unicode_len();
    let nb = b.unicode_len();
    if na != nb {
        proof {
            assert(spec_lower(a@).len() != spec_lower(b@).len());
        }
        return false;
    }
    let mut i: usize = 0;
    while i < na
        invariant
            i <= na,
            na == a@.len(),
            na == b@.len(),
            forall|k: int| 0 <= k < i ==> spec_lower_char(a@[k]) == spec_lower_char(b@[k]),
        decreases na - i,
    {
        let ca = lower_char(a.get_char(i));
        let cb = lower_char(b.get_char(i));
        if ca != cb {
            proof {
                assert(spec_lower(a@)[i as int] != spec_lower(b@)[i as int]);
            }
            return false;
        }
        i = i + 1;
    }
    proof {
        assert(spec_lower(a@) =~= spec_lower(b@));
    }
    true
}

/// The extensions that select the PKCS#12 decoder, compared without case.
pub open spec fn spec_is_pfx_extension(e: Seq<char>) -> bool {
    spec_lower(e) == "pfx"@ || spec_lower(e) == "p12"@
}

/// The extensions that select the PEM decoder, compared without case.
pub open spec fn spec_is_pem_extension(e: Seq<char>) -> bool {
    ||| spec_lower(e) == "pem"@
    ||| spec_lower(e) == "crt"@
    ||| spec_lower(e) == "cer"@
    ||| spec_lower(e) == "cert"@
    ||| spec_lower(e) == "key"@
}

/// The recognized extensions are their own lower-case forms.
pub proof fn lemma_literals_are_lower()
    ensures
        spec_lower("pfx"@) == "pfx"@,
        spec_lower("p12"@) == "p12"@,
        spec_lower("pem"@) == "pem"@,
        spec_lower("crt"@) == "crt"@,
        spec_lower("cer"@) == "cer"@,
        spec_lower("cert"@) == "cert"@,
        spec_lower("key"@) == "key"@,
{
    reveal_strlit("pfx");
    reveal_strlit("p12");
    reveal_strlit("pem");
    reveal_strlit("crt");
    reveal_strlit("cer");
    reveal_strlit("cert");
    reveal_strlit("key");
    assert(spec_lower("pfx"@) =~= "pfx"@);
    assert(spec_lower("p12"@) =~= "p12"@);
    assert(spec_lower("pem"@) =~= "pem"@);
    assert(spec_lower("crt"@) =~= "crt"@);
    assert(spec_lower("cer"@) =~= "cer"@);
    assert(spec_lower("cert"@) =~= "cert"@);
    assert(spec_lower("key"@) =~= "key"@);
}

/// Infer the certificate encoding from the path's extension: `.pfx`/`.p12`
/// select PKCS#12; `.pem`/`.crt`/`.cer`/`.cert`/`.key` select PEM; case does
/// not matter. Any other extension, or none, is rejected; the offending
/// extension is reported lower-cased.
pub fn detect_cert_type(path: &str) -> (r: Result<CertType, LoadError>)
    ensures
        spec_extension(path@) is None ==> r == Err::<CertType, LoadError>(
            LoadError::MissingExtension,
        ),
        spec_extension(path@) matches Some(e) ==> if spec_is_pfx_extension(e) {
            r == Ok::<CertType, LoadError>(CertType::Pfx)
        } else if spec_is_pem_extension(e) {
            r == Ok::<CertType, LoadError>(CertType::Pem)
        } else {
            r matches Err(LoadError::UnsupportedExtension(x)) && x@ == spec_lower(e)
        },
{
    proof {
        lemma_literals_are_lower();
    }
    match extension_of(path) {
        None => Err(LoadError::MissingExtension),
        Some(ext) => {
            if eq_ignore_case(ext, "pfx") || eq_ignore_case(ext, "p12") {
                Ok(CertType::Pfx)
            } else if eq_ignore_case(ext, "pem") || eq_ignore_case(ext, "crt") || eq_ignore_case(
                ext,
                "cer",
            ) || eq_ignore_case(ext, "cert") || eq_ignore_case(ext, "key") {
                Ok(CertType::Pem)
            } else {
                Err(LoadError::UnsupportedExtension(lower_string(ext)))
            }
        },
    }
}

} // verus!
