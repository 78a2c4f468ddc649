//! The container-image side of the pipeline: the build recipe, the build
//! request, and the compressed build-context archive.
//!
//! The recipe is a fixed template parameterized by the serving executable's
//! file name and the number of model files.  The archive holds the serving
//! executable first (under that same name, so the recipe's copy line and
//! the archive always agree), the recipe second, and then the models
//! renamed `model-0`, `model-1`, … in input order; its exact entry sequence
//! is pinned down here, and the caller only streams the finished bytes to
//! the container-build API.

use vstd::prelude::*;
use vstd::string::*;
use vstd::utf8::encode_utf8;

use crate::archive::{has_dotdot_component, has_nul, ok_entry_name, targz_append, targz_bytes,
    targz_entries, targz_finish, targz_level, targz_new};
use crate::errors::PipelineError;
use crate::paths::{last_segment, str_last_segment};

verus! {

/// The decimal digit `d` as a character.
pub open spec fn digit_char(d: nat) -> char {
    if d == 0 {
        '0'
    } else if d == 1 {
        '1'
    } else if d == 2 {
        '2'
    } else if d == 3 {
        '3'
    } else if d == 4 {
        '4'
    } else if d == 5 {
        '5'
    } else if d == 6 {
        '6'
    } else if d == 7 {
        '7'
    } else if d == 8 {
        '8'
    } else {
        '9'
    }
}

/// The decimal digits of `n`, most significant first, without leading
/// zeros (a single `'0'` for zero).
pub open spec fn dec_digits(n: nat) -> Seq<char>
    decreases n,
{
    if n < 10 {
        seq![digit_char(n)]
    } else {
        dec_digits(n / 10).push(digit_char(n % 10))
    }
}

/// One decimal digit, rendered.
fn digit_str(d: u64) -> (r: String)
    requires
        d < 10,
    ensures
        r@ == seq![digit_char(d as nat)],
{
    match d {
        0 => {
            proof {
                reveal_strlit("0");
                assert(("0")@ =~= seq![digit_char(0)]);
            }
            "0".to_owned()
        },
        1 => {
            proof {
                reveal_strlit("1");
                assert(("1")@ =~= seq![digit_char(1)]);
            }
            "1".to_owned()
        },
        2 => {
            proof {
                reveal_strlit("2");
                assert(("2")@ =~= seq![digit_char(2)]);
            }
            "2".to_owned()
        },
        3 => {
            proof {
                reveal_strlit("3");
                assert(("3")@ =~= seq![digit_char(3)]);
            }
            "3".to_owned()
        },
        4 => {
            proof {
                reveal_strlit("4");
                assert(("4")@ =~= seq![digit_char(4)]);
            }
            "4".to_owned()
        },
        5 => {
            proof {
                reveal_strlit("5");
                assert(("5")@ =~= seq![digit_char(5)]);
            }
            "5".to_owned()
        },
        6 => {
            proof {
                reveal_strlit("6");
                assert(("6")@ =~= seq![digit_char(6)]);
            }
            "6".to_owned()
        },
        7 => {
            proof {
                reveal_strlit("7");
                assert(("7")@ =~= seq![digit_char(7)]);
            }
            "7".to_owned()
        },
        8 => {
            proof {
                reveal_strlit("8");
                assert(("8")@ =~= seq![digit_char(8)]);
            }
            "8".to_owned()
        },
        _ => {
            proof {
                reveal_strlit("9");
                assert(("9")@ =~= seq![digit_char(9)]);
            }
            "9".to_owned()
        },
    }
}

/// `n` in decimal.
pub fn u64_to_dec(n: u64) -> (r: String)
    ensures
        r@ == dec_digits(n as nat),
    decreases n,
{
    if n < 10 {
        digit_str(n)
    } else {
        let mut s = u64_to_dec(n / 10);
        let d = digit_str(n % 10);
        s.append(d.as_str());
        proof {
            assert(s@ =~= dec_digits((n / 10) as nat).push(digit_char((n % 10) as nat)));
        }
        s
    }
}

/// The recipe's fixed opening: base image, non-root user and working
/// directory.
pub open spec fn recipe_preamble() -> Seq<char> {
    "\nFROM debian:bullseye-slim AS final\nRUN addgroup --gid 1000 user\nRUN adduser --uid 1000 --gid 1000 --disabled-password --gecos \"\" user\nUSER user\nWORKDIR /usr/src/app\n"@
}

/// The serving executable's copy line.  It names the same in-archive entry
/// that `build_context` writes, so the recipe and the archive always agree.
pub open spec fn server_copy_line(server_name: Seq<char>) -> Seq<char> {
    "COPY /"@ + server_name + " ./"@ + server_name + "\n"@
}

/// The recipe's closing: the exposed port and an entrypoint that launches
/// the serving executable against `model-0`, however many models were
/// copied.
pub open spec fn recipe_trailer(server_name: Seq<char>) -> Seq<char> {
    "\n# Expose 8080 port.\nEXPOSE 8080\n\n# Set entrypoint.\nENTRYPOINT [\"/bin/sh\", \"/usr/src/app/"@
        + server_name + "\", \"-m\", \"/usr/src/app/model-0\", \"--host\", \"0.0.0.0\"]\n"@
}

/// The copy line for model number `i`.
pub open spec fn copy_line(i: nat) -> Seq<char> {
    "COPY /model-"@ + dec_digits(i) + " ./model-"@ + dec_digits(i) + "\n"@
}

/// The copy lines for models `0 .. n`, in order.
pub open spec fn copy_lines(n: nat) -> Seq<char>
    decreases n,
{
    if n == 0 {
        Seq::empty()
    } else {
        copy_lines((n - 1) as nat) + copy_line((n - 1) as nat)
    }
}

/// The whole build recipe: preamble, the serving executable's copy line,
/// one copy line per model, trailer.  Parameterized by the executable's
/// file name and the model count alone.
pub open spec fn recipe_spec(server_name: Seq<char>, n: nat) -> Seq<char> {
    recipe_preamble() + server_copy_line(server_name) + copy_lines(n) + recipe_trailer(
        server_name,
    )
}

/// Renders the build recipe for a serving executable named `server_name`
/// and `n_models` model files.
pub fn recipe(server_name: &str, n_models: usize) -> (r: String)
    ensures
        r@ == recipe_spec(server_name@, n_models as nat),
{
    let mut s =
        "\nFROM debian:bullseye-slim AS final\nRUN addgroup --gid 1000 user\nRUN adduser --uid 1000 --gid 1000 --disabled-password --gecos \"\" user\nUSER user\nWORKDIR /usr/src/app\n".to_owned();
    s.append("COPY /");
    s.append(server_name);
    s.append(" ./");
    s.append(server_name);
    s.append("\n");
    proof {
        assert(s@ =~= recipe_preamble() + server_copy_line(server_name@));
    }
    let mut i: usize = 0;
    while i < n_models
        invariant
            0 <= i <= n_models,
            s@ == recipe_preamble() + server_copy_line(server_name@) + copy_lines(i as nat),
        decreases n_models - i,
    {
        let d = u64_to_dec(i as u64);
        s.append("COPY /model-");
        s.append(d.as_str());
        s.append(" ./model-");
        s.append(d.as_str());
        s.append("\n");
        proof {
            assert(s@ =~= recipe_preamble() + server_copy_line(server_name@) + copy_lines(
                (i + 1) as nat,
            ));
        }
        i = i + 1;
    }
    s.append("\n# Expose 8080 port.\nEXPOSE 8080\n\n# Set entrypoint.\nENTRYPOINT [\"/bin/sh\", \"/usr/src/app/");
    s.append(server_name);
    s.append("\", \"-m\", \"/usr/src/app/model-0\", \"--host\", \"0.0.0.0\"]\n");
    proof {
        assert(s@ =~= recipe_spec(server_name@, n_models as nat));
    }
    s
}

/// The serving executable's in-archive name: its file name under `./`.
pub open spec fn server_entry_name(server_path: Seq<char>) -> Seq<char> {
    "./"@ + last_segment(server_path)
}

/// Model number `i`'s in-archive name.
pub open spec fn model_entry_name(i: nat) -> Seq<char> {
    "./model-"@ + dec_digits(i)
}

/// Decimal digits are ordinary name characters: never a dot, a slash or
/// the NUL character.
proof fn lemma_dec_digits_plain(n: nat)
    ensures
        forall|k: int|
            0 <= k < dec_digits(n).len() ==> (#[trigger] dec_digits(n)[k]) != '.' && dec_digits(
                n,
            )[k] != '/' && dec_digits(n)[k] != '\0',
    decreases n,
{
    if n < 10 {
        assert(dec_digits(n)[0] == digit_char(n));
    } else {
        lemma_dec_digits_plain(n / 10);
        let d = dec_digits(n / 10);
        assert forall|k: int|
            0 <= k < dec_digits(n).len() implies (#[trigger] dec_digits(n)[k]) != '.'
            && dec_digits(n)[k] != '/' && dec_digits(n)[k] != '\0' by {
            if k < d.len() {
                assert(dec_digits(n)[k] == d[k]);
            } else {
                assert(dec_digits(n)[k] == digit_char(n % 10));
            }
        }
    }
}

/// The recipe's in-archive name is one the archive writer is sure to
/// accept.
proof fn lemma_dockerfile_name_ok()
    ensures
        ok_entry_name(("./Dockerfile")@),
{
    reveal_strlit("./Dockerfile");
    let name = ("./Dockerfile")@;
    assert(name.len() == 12);
    assert forall|k: int| 0 <= k < name.len() implies (k == 0 || #[trigger] name[k] != '.')
        && name[k] != '\0' by {}
    if has_nul(name) {
        let k = choose|k: int| 0 <= k < name.len() && name[k] == '\0';
        assert(false);
    }
    if has_dotdot_component(name) {
        let k = choose|k: int|
            {
                &&& 0 <= k
                &&& k + 2 <= name.len()
                &&& #[trigger] name[k] == '.'
                &&& name[k + 1] == '.'
                &&& (k == 0 || name[k - 1] == '/')
                &&& (k + 2 == name.len() || name[k + 2] == '/')
            };
        assert(k == 0);
        assert(false);
    }
}

/// Every model's in-archive name is one the archive writer is sure to
/// accept.
proof fn lemma_model_entry_name_ok(i: nat)
    ensures
        ok_entry_name(model_entry_name(i)),
{
    reveal_strlit("./model-");
    lemma_dec_digits_plain(i);
    let lit = ("./model-")@;
    let name = model_entry_name(i);
    assert(lit.len() == 8);
    assert forall|k: int| 0 <= k < name.len() implies (k == 0 || #[trigger] name[k] != '.')
        && name[k] != '\0' by {
        if k < 8 {
            assert(name[k] == lit[k]);
        } else {
            assert(name[k] == dec_digits(i)[k - 8]);
        }
    }
    assert(name[0] == '.');
    if has_nul(name) {
        let k = choose|k: int| 0 <= k < name.len() && name[k] == '\0';
        assert(false);
    }
    if has_dotdot_component(name) {
        let k = choose|k: int|
            {
                &&& 0 <= k
                &&& k + 2 <= name.len()
                &&& #[trigger] name[k] == '.'
                &&& name[k + 1] == '.'
                &&& (k == 0 || name[k - 1] == '/')
                &&& (k + 2 == name.len() || name[k + 2] == '/')
            };
        assert(k == 0);
        assert(name[1] == lit[1]);
        assert(false);
    }
}

/// The build context's exact entry sequence: the serving executable, the
/// recipe, then the models in input order.
pub open spec fn context_entries(
    server_path: Seq<char>,
    server_bytes: Seq<u8>,
    models: Seq<Seq<u8>>,
) -> Seq<(Seq<char>, Seq<u8>, u32)> {
    seq![
        (server_entry_name(server_path), server_bytes, 0o755u32),
        (
            "./Dockerfile"@,
            encode_utf8(recipe_spec(last_segment(server_path), models.len())),
            0o755u32,
        ),
    ] + Seq::new(models.len(), |i: int| (model_entry_name(i as nat), models[i], 0o644u32))
}

/// The compression level of a build-context archive: minimal, favouring
/// build speed — the archive is transient build input, not a stored
/// artifact.
pub const CONTEXT_COMPRESSION_LEVEL: u32 = 0;

/// Builds the compressed build-context archive for one image: the serving
/// executable (under its own file name), the recipe for exactly these
/// models, and each model file as `model-<i>`, in input order.
///
/// The recipe's and models' in-archive names are fixed and always
/// accepted, so the build succeeds whenever the executable's name is one
/// the archive writer is sure to accept; failure is possible only beyond
/// that set (see `ok_entry_name`).
pub fn build_context(server_path: &str, server_bytes: &Vec<u8>, models: &Vec<Vec<u8>>) -> (r:
    Result<Vec<u8>, PipelineError>)
    ensures
        ok_entry_name(server_entry_name(server_path@)) ==> r is Ok,
        r matches Ok(bytes) ==> bytes@ == targz_bytes(
            CONTEXT_COMPRESSION_LEVEL,
            context_entries(server_path@, server_bytes@, models.deep_view()),
        ),
        r matches Err(e) ==> e is Build,
{
    let ghost all = context_entries(server_path@, server_bytes@, models.deep_view());
    let file_name = str_last_segment(server_path);
    let recipe_text = recipe(file_name.as_str(), models.len());
    let recipe_bytes = recipe_text.as_str().as_bytes_vec();
    let mut b = targz_new(CONTEXT_COMPRESSION_LEVEL);
    let server_name = "./".to_owned().concat(file_name.as_str());
    if let Err(e) = targz_append(&mut b, server_name.as_str(), server_bytes, 0o755) {
        return Err(PipelineError::Build(e));
    }
    proof {
        lemma_dockerfile_name_ok();
    }
    if let Err(e) = targz_append(&mut b, "./Dockerfile", &recipe_bytes, 0o755) {
        return Err(PipelineError::Build(e));
    }
    proof {
        assert(targz_entries(b) =~= all.take(2));
    }
    let n = models.len();
    let mut i: usize = 0;
    while i < n
        invariant
            0 <= i <= n,
            n == models@.len(),
            all == context_entries(server_path@, server_bytes@, models.deep_view()),
            targz_level(b) == CONTEXT_COMPRESSION_LEVEL,
            targz_entries(b) == all.take(2 + i),
        decreases n - i,
    {
        let name = "./model-".to_owned().concat(u64_to_dec(i as u64).as_str());
        proof {
            lemma_model_entry_name_ok(i as nat);
        }
        if let Err(e) = targz_append(&mut b, name.as_str(), &models[i], 0o644) {
            return Err(PipelineError::Build(e));
        }
        proof {
            assert(models.deep_view()[i as int] == models@[i as int]@);
            assert(targz_entries(b) =~= all.take(2 + i + 1));
        }
        i = i + 1;
    }
    proof {
        assert(all.take(2 + n) =~= all);
    }
    match targz_finish(b) {
        Ok(bytes) => Ok(bytes),
        Err(e) => Err(PipelineError::Build(e)),
    }
}

/// What the container-build API is asked for: the recipe's in-context
/// name, the image tag, and removal of intermediate containers on success.
#[derive(Debug)]
pub struct BuildRequest {
    /// The recipe file's name inside the build context.
    pub dockerfile_name: String,
    /// The tag the built image is given.
    pub tag: String,
    /// Whether intermediate containers are removed on success.
    pub remove_intermediate: bool,
}

/// The fixed build request for an image named `image_name`.
pub fn build_request(image_name: &str) -> (r: BuildRequest)
    ensures
        r.dockerfile_name@ == "Dockerfile"@,
        r.tag@ == image_name@,
        r.remove_intermediate,
{
    BuildRequest {
        dockerfile_name: "Dockerfile".to_owned(),
        tag: image_name.to_owned(),
        remove_intermediate: true,
    }
}

} // verus!
