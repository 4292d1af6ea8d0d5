//! SSH targets, their key fingerprints, and the controlled command scripts
//! that run on them.

use vstd::prelude::*;
use vstd::string::*;

use crate::hashing::{base64_standard, base64_standard_text, sha256_of_text, sha256_text,
    all_whitespace, lemma_trim_ignores_surrounding_whitespace, trim_whitespace, whitespace_trimmed};
use crate::text::{count_char, join_lines, lemma_join_lines_newline_count, lemma_join_lines_push, lemma_joined_lines_layout, line_start, owned, push_char,
    total_length};

verus! {

/// A Docker host reached over SSH.
#[derive(Debug, Clone)]
pub struct SshTarget {
    pub host: String,
    pub port: u16,
    pub username: String,
    pub public_key: String,
    pub private_key: String,
    pub private_key_passphrase: Option<String>,
}

/// The fingerprint of a public key: "SHA256:" and the padded standard Base64
/// of the SHA-256 digest of the key with surrounding whitespace removed.
pub open spec fn key_fingerprint(public_key: Seq<char>) -> Seq<char> {
    "SHA256:"@ + base64_standard_text(sha256_of_text(whitespace_trimmed(public_key)))
}

/// A key's fingerprint ignores whitespace around the key: padding it with
/// spaces, tabs or line breaks on either side gives the same fingerprint.
pub proof fn lemma_fingerprint_ignores_surrounding_whitespace(
    prefix: Seq<char>,
    public_key: Seq<char>,
    suffix: Seq<char>,
)
    requires
        all_whitespace(prefix),
        all_whitespace(suffix),
    ensures
        key_fingerprint(prefix + public_key + suffix) == key_fingerprint(public_key),
{
    lemma_trim_ignores_surrounding_whitespace(prefix, public_key, suffix);
}

/// The fingerprint of `public_key`, as `key_fingerprint` describes.
pub fn fingerprint_public_key(public_key: &str) -> (r: String)
    ensures
        r@ == key_fingerprint(public_key@),
        r@.len() == 51,
{
    let trimmed = trim_whitespace(public_key);
    let digest = sha256_text(trimmed);
    let encoded = base64_standard(digest.as_slice());
    let mut r = owned("SHA256:");
    r.append(encoded.as_str());
    proof {
        reveal_strlit("SHA256:");
        assert("SHA256:"@.len() == 7);
    }
    r
}

/// The texts of some commands, in order.
pub open spec fn command_texts(commands: Seq<String>) -> Seq<Seq<char>> {
    commands.map_values(|c: String| c@)
}

/// Adding a command to a non-empty list adds one line to the script: the
/// script of the longer list is the script of the shorter one, a newline,
/// then the added command.
pub proof fn lemma_script_adds_one_line(commands: Seq<String>, command: String)
    requires
        commands.len() > 0,
    ensures
        join_lines(command_texts(commands.push(command))) == join_lines(command_texts(commands))
            + seq!['\n'] + command@,
{
    assert(command_texts(commands.push(command)) =~= command_texts(commands).push(command@));
    lemma_join_lines_push(command_texts(commands), command@);
}

/// The script that a controlled command execution on `target` runs: the
/// commands, one per line, in order. Nothing is sent yet; the script is
/// what the caller would execute.
pub fn run_controlled_commands(target: &SshTarget, commands: &[String]) -> (r: String)
    ensures
        r@ == join_lines(command_texts(commands@)),
        commands@.len() == 0 ==> r@.len() == 0,
        commands@.len() > 0 ==> r@.len() == total_length(command_texts(commands@))
            + commands@.len() - 1,
        forall|i: int|
            0 <= i < commands@.len() ==> r@.subrange(
                #[trigger] line_start(command_texts(commands@), i),
                line_start(command_texts(commands@), i) + commands@[i]@.len(),
            ) == commands@[i]@,
        forall|i: int|
            0 <= i < commands@.len() - 1 ==> r@[#[trigger] line_start(command_texts(commands@), i)
                + commands@[i]@.len()] == '\n',
        commands@.len() > 0 && (forall|i: int|
            0 <= i < commands@.len() ==> !(#[trigger] commands@[i])@.contains('\n'))
            ==> count_char(r@, '\n') == commands@.len() - 1,
{
    let ghost lines = command_texts(commands@);
    let mut r = String::new();
    let n: usize = commands.len();
    let mut i: usize = 0;
    while i < n
        invariant
            n == commands@.len(),
            lines == command_texts(commands@),
            i <= n,
            r@ == join_lines(lines.subrange(0, i as int)),
        decreases n - i,
    {
        if i > 0 {
            push_char(&mut r, '\n');
        }
        r.append(commands[i].as_str());
        proof {
            let next = lines.subrange(0, i + 1);
            assert(next.drop_last() =~= lines.subrange(0, i as int));
            assert(next.last() == commands@[i as int]@);
            if i == 0 {
                assert(r@ =~= next[0]);
            }
        }
        i = i + 1;
    }
    assert(lines.subrange(0, n as int) =~= lines);
    proof {
        lemma_joined_lines_layout(lines);
        assert forall|i: int| 0 <= i < commands@.len() implies lines[i] == commands@[i]@ by {}
        if commands@.len() > 0 && (forall|i: int|
            0 <= i < commands@.len() ==> !(#[trigger] commands@[i])@.contains('\n')) {
            assert forall|i: int| 0 <= i < lines.len() implies !(#[trigger] lines[i]).contains(
                '\n',
            ) by {
                assert(lines[i] == commands@[i]@);
            }
            lemma_join_lines_newline_count(lines);
        }
    }
    r
}

} // verus!
