use vstd::prelude::*;
use crate::bundle::{CertificateBundle, FileProbe};
use crate::errors::LoadError;
use crate::paths::{eq_ignore_case, extension_of, lemma_literals_are_lower, lower_string,
    spec_extension, spec_is_pfx_extension, spec_lower};
use crate::pkcs12::{parse_pfx_bytes, pfx_decode_post};

verus! {

/// The password a caller supplied, with absence meaning the empty password.
pub open spec fn spec_password(password: Option<&str>) -> Seq<char> {
    match password {
        Some(p) => p@,
        None => Seq::empty(),
    }
}

/// What loading a PKCS#12 file promises: the file must exist and be
/// readable; in the strict invocation mode a path whose extension is outside
/// `.pfx`/`.p12` is rejected, the offending extension reported lower-cased
/// (a path with no extension is accepted either way); an empty file is
/// rejected; and the remaining outcomes are the PKCS#12 decoder's.
pub open spec fn pfx_load_post(
    path: Seq<char>,
    file: FileProbe,
    password: Seq<char>,
    validate_extension: bool,
    r: Result<CertificateBundle, LoadError>,
) -> bool {
    match file {
        FileProbe::Missing => r matches Err(LoadError::FileNotFound(p)) && p@ == path,
        FileProbe::Unreadable(why) => r matches Err(LoadError::UnreadableFile(p, w)) && p@ == path
            && w@ == why@,
        FileProbe::Content(data) => match spec_extension(path) {
            Some(e) => if validate_extension && !spec_is_pfx_extension(e) {
                r matches Err(LoadError::UnsupportedExtension(x)) && x@ == spec_lower(e)
            } else if data@.len() == 0 {
                r == Err::<CertificateBundle, LoadError>(LoadError::EmptyFile)
            } else {
                pfx_decode_post(data@, password, r)
            },
            None => if data@.len() == 0 {
                r == Err::<CertificateBundle, LoadError>(LoadError::EmptyFile)
            } else {
                pfx_decode_post(data@, password, r)
            },
        },
    }
}

/// Load a server identity from a PKCS#12 file. The caller reads the file and
/// hands the outcome in as `file`; a `password` of `None` means the empty
/// password. `validate_extension` is set only by the positional invocation
/// mode, where a path with an extension outside `.pfx`/`.p12` is rejected
/// before the contents are looked at. The password may not hold a NUL
/// character: the underlying decryption call aborts on one.
pub fn load_certificate(
    path: &str,
    file: FileProbe,
    password: Option<&str>,
    validate_extension: bool,
) -> (r: Result<CertificateBundle, LoadError>)
    requires
        !spec_password(password).contains('\0'),
    ensures
        pfx_load_post(path@, file, spec_password(password), validate_extension, r),
{
    let data = match file {
        FileProbe::Missing => {
            return Err(LoadError::FileNotFound(path.to_owned()));
        },
        FileProbe::Unreadable(why) => {
            return Err(LoadError::UnreadableFile(path.to_owned(), why));
        },
        FileProbe::Content(data) => data,
    };
    if validate_extension {
        match extension_of(path) {
            Some(ext) => {
                proof {
                    lemma_literals_are_lower();
                }
                if !(eq_ignore_case(ext, "pfx") || eq_ignore_case(ext, "p12")) {
                    return Err(LoadError::UnsupportedExtension(lower_string(ext)));
                }
            },
            None => {},
        }
    }
    if data.len() == 0 {
        return Err(LoadError::EmptyFile);
    }
    let pwd = match password {
        Some(p) => p,
        None => "",
    };
    proof {
        reveal_strlit("");
        assert(""@ =~= Seq::<char>::empty());
    }
    parse_pfx_bytes(data.as_slice(), pwd)
}

} // verus!
