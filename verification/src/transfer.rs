//! File transfers: their records, the checks on both ends of a direct upload, and the
//! names under which received files are saved.
use vstd::prelude::*;

use crate::device::Device;
use crate::numeric::{saturating_i64, u64_to_i64_saturating, usize_to_i64_saturating};
use crate::text::{
    chars_of, decimal, decimal_string, has_char, is_blank, is_blank_str, str_eq, trim, trimmed,
};

verus! {

broadcast use vstd::string::group_string_axioms;

/// Largest file sent in one direct upload, in bytes.
pub const MAX_DIRECT_FILE_BYTES: u64 = 100 * 1024 * 1024;

/// Number of names tried for a received file before giving up.
pub const DOWNLOAD_NAME_ATTEMPTS: u32 = 10000;

/// A file transfer, sent or received.
#[derive(Clone, Debug)]
pub struct FileTransfer {
    pub id: String,
    pub peer_device_id: String,
    pub peer_device_name: Option<String>,
    pub direction: String,
    pub filename: String,
    pub size: i64,
    pub status: String,
    pub local_path: Option<String>,
    pub created_at: i64,
    pub updated_at: i64,
    pub error: Option<String>,
}

/// The mathematical value of a [`FileTransfer`].
pub ghost struct FileTransferView {
    pub id: Seq<char>,
    pub peer_device_id: Seq<char>,
    pub peer_device_name: Option<Seq<char>>,
    pub direction: Seq<char>,
    pub filename: Seq<char>,
    pub size: i64,
    pub status: Seq<char>,
    pub local_path: Option<Seq<char>>,
    pub created_at: i64,
    pub updated_at: i64,
    pub error: Option<Seq<char>>,
}

impl View for FileTransfer {
    type V = FileTransferView;

    open spec fn view(&self) -> FileTransferView {
        FileTransferView {
            id: self.id@,
            peer_device_id: self.peer_device_id@,
            peer_device_name: self.peer_device_name.deep_view(),
            direction: self.direction@,
            filename: self.filename@,
            size: self.size,
            status: self.status@,
            local_path: self.local_path.deep_view(),
            created_at: self.created_at,
            updated_at: self.updated_at,
            error: self.error.deep_view(),
        }
    }
}

/// The query that accompanies a direct upload.
#[derive(Clone, Debug)]
pub struct FileUploadQuery {
    pub transfer_id: String,
    pub from_device_id: String,
    pub from_device_name: String,
    pub to_device_id: String,
    pub filename: String,
    pub size: i64,
    pub created_at: i64,
}

/// The mathematical value of a [`FileUploadQuery`].
pub ghost struct FileUploadQueryView {
    pub transfer_id: Seq<char>,
    pub from_device_id: Seq<char>,
    pub from_device_name: Seq<char>,
    pub to_device_id: Seq<char>,
    pub filename: Seq<char>,
    pub size: i64,
    pub created_at: i64,
}

impl View for FileUploadQuery {
    type V = FileUploadQueryView;

    open spec fn view(&self) -> FileUploadQueryView {
        FileUploadQueryView {
            transfer_id: self.transfer_id@,
            from_device_id: self.from_device_id@,
            from_device_name: self.from_device_name@,
            to_device_id: self.to_device_id@,
            filename: self.filename@,
            size: self.size,
            created_at: self.created_at,
        }
    }
}

/// The receiver's answer to a direct upload.
#[derive(Clone, Debug)]
pub struct FileUploadResponse {
    pub ok: bool,
    pub transfer: FileTransfer,
}

/// Event raised when a transfer record is created.
#[derive(Clone, Debug)]
pub struct TransferCreatedEvent {
    pub transfer: FileTransfer,
}

/// Event raised when the status of a transfer changes.
#[derive(Clone, Debug)]
pub struct TransferStatusChangedEvent {
    pub transfer: FileTransfer,
}

/// `.` or `..`.
pub open spec fn is_dot_name(n: Seq<char>) -> bool {
    n == "."@ || n == ".."@
}

/// A name under which a received file may be saved: not blank, its own trim, neither
/// `.` nor `..`, and without a path separator.
pub open spec fn is_clean_file_name(n: Seq<char>) -> bool {
    &&& n.len() > 0
    &&& trimmed(n) == n
    &&& !is_dot_name(n)
    &&& !n.contains('/')
    &&& !n.contains('\\')
}

/// What the receiver makes of the last component of a file name it was sent.
pub open spec fn clean_name_result(component: Option<Seq<char>>) -> Result<Seq<char>, Seq<char>> {
    match component {
        None => Err("文件名无效"@),
        Some(c) => {
            let t = trimmed(c);
            if t.len() == 0 || is_dot_name(t) {
                Err("文件名无效"@)
            } else if t.contains('/') || t.contains('\\') {
                Err("文件名不能包含路径"@)
            } else {
                Ok(t)
            }
        },
    }
}

/// What the sender makes of the last component of the path of the file it sends.
pub open spec fn safe_name_result(component: Option<Seq<char>>) -> Option<Seq<char>> {
    match component {
        None => None,
        Some(c) => {
            let t = trimmed(c);
            if t.len() == 0 || is_dot_name(t) {
                None
            } else {
                Some(t)
            }
        },
    }
}

/// Index of the last `/` among the first `i` characters of `p`, or -1.
pub open spec fn last_slash(p: Seq<char>, i: int) -> int
    decreases i,
{
    if i <= 0 || i > p.len() {
        -1
    } else if p[i - 1] == '/' {
        i - 1
    } else {
        last_slash(p, i - 1)
    }
}

/// What follows the last `/` of a path (the whole path where it has none).
pub open spec fn final_segment(p: Seq<char>) -> Seq<char> {
    p.subrange(last_slash(p, p.len() as int) + 1, p.len() as int)
}

/// A character that some platform takes to separate the components of a path.
pub open spec fn is_any_separator(c: char) -> bool {
    c == '/' || c == '\\'
}

/// A path in which no platform sees a prefix: it has no `:` (so no drive) and does not
/// start with two separators (so no share, device or verbatim prefix).
pub open spec fn is_portable_path(p: Seq<char>) -> bool {
    !p.contains(':') && !(p.len() >= 2 && is_any_separator(p[0]) && is_any_separator(p[1]))
}

/// `p` without the trailing `/` and `/.` that path components leave out (a lone `/` or
/// `/.` is kept).
pub open spec fn without_trailing_separators(p: Seq<char>) -> Seq<char>
    decreases p.len(),
{
    if p.len() >= 2 && p[p.len() - 1] == '/' {
        without_trailing_separators(p.drop_last())
    } else if p.len() >= 3 && p[p.len() - 1] == '.' && p[p.len() - 2] == '/' {
        without_trailing_separators(p.subrange(0, p.len() - 2))
    } else {
        p
    }
}

/// The final component of `p` where every platform agrees on it. Take off the trailing
/// `/` and `/.`; where what follows the last `/` then holds no `\` (which only some
/// platforms take for a separator), in a path without a prefix, that part is the final
/// component if it is a name, and there is none if it is empty, `.` or `..`. `None`
/// where the platform decides (a `:`, a leading pair of separators, a `\` in the last
/// part).
pub open spec fn known_file_name(p: Seq<char>) -> Option<Option<Seq<char>>> {
    let seg = final_segment(without_trailing_separators(p));
    if !is_portable_path(p) || seg.contains('\\') {
        None
    } else if seg.len() == 0 || seg == "."@ || seg == ".."@ {
        Some(None)
    } else {
        Some(Some(seg))
    }
}

/// A result of text as a value of sequences.
pub open spec fn text_result(r: Result<String, String>) -> Result<Seq<char>, Seq<char>> {
    match r {
        Ok(n) => Ok(n@),
        Err(e) => Err(e@),
    }
}

/// `Path::new(path).file_name()` as text: the final component of the path, if there is
/// one. Which characters separate components, and which prefixes a path may have,
/// depend on the platform, so the component is claimed only where `known_file_name`
/// gives it: after the trailing `/` and `/.`, which components leave out, the part after
/// the last `/` if it holds no `\` and the path has no prefix; none where that part is
/// empty, `.` or `..`. Of other paths (with a `:`, a leading pair of separators, or a `\`
/// in the last part) nothing is claimed.
#[verifier::external_body]
fn path_file_name(path: &str) -> (r: Option<String>)
    ensures
        known_file_name(path@) matches Some(c) ==> r.deep_view() == c,
{
    match std::path::Path::new(path).file_name() {
        Some(name) => name.to_str().map(|s| s.to_owned()),
        None => None,
    }
}

fn is_dot_name_exec(n: &str) -> (b: bool)
    ensures
        b == is_dot_name(n@),
{
    str_eq(n, ".") || str_eq(n, "..")
}

/// The receiver's check of the last component of a file name: trimmed, it must be a
/// clean name.
pub fn clean_file_name(component: Option<String>) -> (r: Result<String, String>)
    ensures
        match r {
            Ok(n) => clean_name_result(component.deep_view()) == Ok::<Seq<char>, Seq<char>>(n@),
            Err(e) => clean_name_result(component.deep_view()) == Err::<Seq<char>, Seq<char>>(e@),
        },
{
    match component {
        None => Err("文件名无效".to_owned()),
        Some(c) => {
            let t = trim(c.as_str());
            if t.as_str().unicode_len() == 0 || is_dot_name_exec(t.as_str()) {
                return Err("文件名无效".to_owned());
            }
            if has_char(t.as_str(), '/') || has_char(t.as_str(), '\\') {
                return Err("文件名不能包含路径".to_owned());
            }
            Ok(t)
        },
    }
}

/// Every name the receiver accepts is clean.
pub proof fn lemma_accepted_names_are_clean(component: Option<Seq<char>>)
    ensures
        clean_name_result(component) matches Ok(n) ==> is_clean_file_name(n),
{
    if let Some(c) = component {
        crate::text::lemma_trim_idempotent(c);
    }
}

proof fn lemma_no_slash_is_own_final_segment(p: Seq<char>)
    requires
        !p.contains('/'),
    ensures
        final_segment(p) == p,
{
    assert forall|i: int| 0 <= i <= p.len() implies last_slash(p, i) == -1 by {
        lemma_last_slash_absent(p, i);
    }
    assert(p.subrange(0, p.len() as int) =~= p);
}

proof fn lemma_last_slash_absent(p: Seq<char>, i: int)
    requires
        !p.contains('/'),
        0 <= i <= p.len(),
    ensures
        last_slash(p, i) == -1,
    decreases i,
{
    if i > 0 {
        assert(p[i - 1] != '/') by {
            if p[i - 1] == '/' {
                assert(p.contains('/'));
            }
        }
        lemma_last_slash_absent(p, i - 1);
    }
}

proof fn lemma_after_last_slash(p: Seq<char>, i: int, j: int)
    requires
        0 <= i <= p.len(),
        last_slash(p, i) < j < i,
    ensures
        p[j] != '/',
    decreases i,
{
    if p[i - 1] != '/' && j < i - 1 {
        lemma_after_last_slash(p, i - 1, j);
    }
}

proof fn lemma_final_segment_has_no_slash(p: Seq<char>)
    ensures
        !final_segment(p).contains('/'),
{
    lemma_last_slash_bounds(p, p.len() as int);
    let k = last_slash(p, p.len() as int);
    if final_segment(p).contains('/') {
        let j = choose|j: int| 0 <= j < final_segment(p).len() && final_segment(p)[j] == '/';
        lemma_after_last_slash(p, p.len() as int, k + 1 + j);
    }
}

proof fn lemma_last_slash_bounds(p: Seq<char>, i: int)
    requires
        0 <= i <= p.len(),
    ensures
        -1 <= last_slash(p, i) < i,
    decreases i,
{
    if i > 0 && p[i - 1] != '/' {
        lemma_last_slash_bounds(p, i - 1);
    }
}

/// The name the sender takes from a path never carries a directory: where every
/// platform agrees on the final component of the path, the name holds neither `/` nor
/// `\`, and the receiver accepts it unchanged.
pub proof fn lemma_sender_name_has_no_directory(path: Seq<char>)
    ensures
        known_file_name(path) matches Some(c) ==> (safe_name_result(c) matches Some(n) ==> (
        !n.contains('/') && !n.contains('\\') && clean_name_result(Some(n)) == Ok::<
            Seq<char>,
            Seq<char>,
        >(n))),
{
    if let Some(Some(c)) = known_file_name(path) {
        if let Some(n) = safe_name_result(Some(c)) {
            lemma_final_segment_has_no_slash(without_trailing_separators(path));
            crate::text::lemma_trimmed_holds_only_chars_of(c, '/');
            crate::text::lemma_trimmed_holds_only_chars_of(c, '\\');
            lemma_sender_name_accepted(Some(c));
        }
    }
}

/// A name the receiver accepted, sent again as a file name, is accepted unchanged:
/// every platform reads it as a single component, unless it holds a `:`, which some
/// platforms read as a drive.
pub proof fn lemma_clean_name_is_accepted_again(n: Seq<char>)
    requires
        is_clean_file_name(n),
        !n.contains(':'),
    ensures
        known_file_name(n) == Some(Some(n)),
        clean_name_result(Some(n)) == Ok::<Seq<char>, Seq<char>>(n),
{
    lemma_no_slash_is_own_final_segment(n);
    if n.len() >= 2 && is_any_separator(n[0]) {
        assert(n.contains(n[0]));
    }
    if n.len() >= 2 && n[n.len() - 1] == '/' {
        assert(n.contains('/'));
    }
    if n.len() >= 3 && n[n.len() - 2] == '/' {
        assert(n.contains('/'));
    }
    assert(without_trailing_separators(n) == n);
}

/// The name under which a received file called `filename` is saved, or why it is
/// refused: the final component of the path, trimmed, checked by `clean_name_result`.
/// Where every platform agrees on that component (`known_file_name`), the outcome is
/// exactly that check's; whatever the platform makes of the path, an accepted name is
/// clean.
pub fn sanitize_inbound_filename(filename: &str) -> (r: Result<String, String>)
    ensures
        known_file_name(filename@) matches Some(c) ==> text_result(r) == clean_name_result(c),
        r matches Ok(n) ==> is_clean_file_name(n@),
        r matches Err(e) ==> e@ == "文件名无效"@ || e@ == "文件名不能包含路径"@,
{
    let component = path_file_name(filename);
    let r = clean_file_name(component);
    proof {
        lemma_accepted_names_are_clean(component.deep_view());
    }
    r
}

/// The sender's name for a file from the last component of its path.
pub fn safe_name_from_component(component: Option<String>) -> (r: Option<String>)
    ensures
        r.deep_view() == safe_name_result(component.deep_view()),
{
    match component {
        None => None,
        Some(c) => {
            let t = trim(c.as_str());
            if t.as_str().unicode_len() == 0 || is_dot_name_exec(t.as_str()) {
                None
            } else {
                Some(t)
            }
        },
    }
}

/// The sender's name for the file at `path`, if it has a usable one: non-empty once
/// trimmed, neither `.` nor `..`, and its own trim. Where every platform agrees on the
/// final component of the path (`known_file_name`), it is `safe_name_result` of it: for a
/// portable path whose part after the last `/` is a name, that part trimmed, where that
/// is usable; for an empty portable path, or one that ends in `..`, none.
pub fn safe_file_name(path: &str) -> (r: Option<String>)
    ensures
        r matches Some(n) ==> n@.len() > 0 && !is_dot_name(n@) && trimmed(n@) == n@,
        known_file_name(path@) matches Some(c) ==> r.deep_view() == safe_name_result(c),
{
    let component = path_file_name(path);
    let r = safe_name_from_component(component);
    proof {
        if let Some(c) = component.deep_view() {
            crate::text::lemma_trim_idempotent(c);
        }
    }
    r
}

/// A name the sender picked is accepted unchanged by the receiver, unless it holds a
/// `/` or a `\`.
pub proof fn lemma_sender_name_accepted(component: Option<Seq<char>>)
    requires
        safe_name_result(component) is Some,
        !safe_name_result(component)->0.contains('/'),
        !safe_name_result(component)->0.contains('\\'),
    ensures
        clean_name_result(Some(safe_name_result(component)->0)) == Ok::<Seq<char>, Seq<char>>(
            safe_name_result(component)->0,
        ),
{
    crate::text::lemma_trim_idempotent(component->0);
}

/// Index of the last `.` among the first `i` characters of `n`, or -1.
pub open spec fn last_dot(n: Seq<char>, i: int) -> int
    decreases i,
{
    if i <= 0 || i > n.len() {
        -1
    } else if n[i - 1] == '.' {
        i - 1
    } else {
        last_dot(n, i - 1)
    }
}

/// A file name cut into stem and extension as `Path::file_stem` and `Path::extension`
/// cut a single-component name: at the last `.`, unless that `.` starts the name or the
/// name is `..`.
pub open spec fn split_extension(n: Seq<char>) -> (Seq<char>, Option<Seq<char>>) {
    let k = last_dot(n, n.len() as int);
    if n == ".."@ || k <= 0 {
        (n, None)
    } else {
        (n.subrange(0, k), Some(n.subrange(k + 1, n.len() as int)))
    }
}

/// Candidate number `index` for saving a received file called `base`: the name itself
/// first, then `stem (index).extension`.
pub open spec fn download_name(base: Seq<char>, index: nat) -> Seq<char> {
    if index == 0 {
        base
    } else {
        let parts = split_extension(base);
        let stem = if parts.0.len() == 0 {
            "file"@
        } else {
            parts.0
        };
        match parts.1 {
            Some(e) => if e.len() > 0 {
                stem + " ("@ + decimal(index) + ")."@ + e
            } else {
                stem + " ("@ + decimal(index) + ")"@
            },
            None => stem + " ("@ + decimal(index) + ")"@,
        }
    }
}

proof fn lemma_last_dot_bounds(n: Seq<char>, i: int)
    requires
        0 <= i <= n.len(),
    ensures
        -1 <= last_dot(n, i) < i,
    decreases i,
{
    if i > 0 && n[i - 1] != '.' {
        lemma_last_dot_bounds(n, i - 1);
    }
}

fn find_last_dot(v: &Vec<char>) -> (k: i64)
    requires
        v@.len() < i64::MAX,
    ensures
        k == last_dot(v@, v@.len() as int),
{
    let mut i: usize = v.len();
    while i > 0 && v[i - 1] != '.'
        invariant
            i <= v@.len() < i64::MAX,
            last_dot(v@, v@.len() as int) == last_dot(v@, i as int),
        decreases i,
    {
        i = i - 1;
    }
    if i == 0 {
        -1
    } else {
        (i - 1) as i64
    }
}

/// Candidate number `index` for saving a received file called `base`.
pub fn download_candidate(base: &str, index: u32) -> (n: String)
    requires
        base@.len() < i64::MAX,
    ensures
        n@ == download_name(base@, index as nat),
{
    if index == 0 {
        return base.to_owned();
    }
    let v = chars_of(base);
    let k = find_last_dot(&v);
    let len = v.len();
    proof {
        lemma_last_dot_bounds(base@, base@.len() as int);
    }
    let whole = str_eq(base, "..") || k <= 0;
    let stem: String = if whole {
        base.to_owned()
    } else {
        base.substring_char(0, k as usize).to_owned()
    };
    let stem = if stem.as_str().unicode_len() == 0 {
        "file".to_owned()
    } else {
        stem
    };
    let digits = decimal_string(index as u64);
    let head = stem.concat(" (").concat(digits.as_str());
    if !whole && (k as usize) + 1 < len {
        let ext = base.substring_char((k as usize) + 1, len);
        head.concat(").").concat(ext)
    } else {
        head.concat(")")
    }
}

proof fn lemma_split_extension_lengths(n: Seq<char>)
    requires
        n.len() > 0,
    ensures
        split_extension(n).0.len() > 0,
        split_extension(n).1 matches Some(e) ==> split_extension(n).0.len() + 1 + e.len()
            == n.len(),
        split_extension(n).1 is None ==> split_extension(n).0 == n,
{
    lemma_last_dot_bounds(n, n.len() as int);
}

proof fn lemma_infix_equal(p: Seq<char>, x: Seq<char>, q1: Seq<char>, y: Seq<char>, q2: Seq<char>)
    requires
        p + x + q1 == p + y + q2,
        x.len() == y.len(),
    ensures
        x == y,
{
    let l = p + x + q1;
    assert(x =~= l.subrange(p.len() as int, (p.len() + x.len()) as int));
    assert(y =~= (p + y + q2).subrange(p.len() as int, (p.len() + y.len()) as int));
}

proof fn lemma_last_dot_of_extension(s: Seq<char>, e: Seq<char>, i: int)
    requires
        !e.contains('.'),
        s.len() + 1 <= i <= s.len() + 1 + e.len(),
    ensures
        last_dot(s + "."@ + e, i) == s.len(),
    decreases i,
{
    reveal_strlit(".");
    let n = s + "."@ + e;
    if i > s.len() + 1 {
        assert(n[i - 1] == e[i - 1 - s.len() - 1]);
        if n[i - 1] == '.' {
            assert(e.contains('.'));
        }
        lemma_last_dot_of_extension(s, e, i - 1);
    } else {
        assert(n[i - 1] == '.');
    }
}

/// A candidate name other than the first keeps the extension of the received name,
/// whatever its length: `stem.ext` becomes `stem (i).ext`, where the extension is what
/// follows the last `.` and the stem does not start the name with that `.`.
pub proof fn lemma_candidate_keeps_extension(stem: Seq<char>, ext: Seq<char>, index: nat)
    requires
        stem.len() > 0,
        ext.len() > 0,
        !ext.contains('.'),
        index > 0,
    ensures
        download_name(stem + "."@ + ext, index) == stem + " ("@ + decimal(index) + ")."@ + ext,
{
    reveal_strlit(".");
    reveal_strlit("..");
    let n = stem + "."@ + ext;
    lemma_last_dot_of_extension(stem, ext, n.len() as int);
    assert(n != ".."@) by {
        assert(n.len() >= 3);
    }
    assert(n.subrange(0, stem.len() as int) =~= stem);
    assert(n.subrange(stem.len() as int + 1, n.len() as int) =~= ext);
}

/// The candidate names for a received file are all different: the search never probes
/// the same name twice.
pub proof fn lemma_download_names_distinct(base: Seq<char>, i: nat, j: nat)
    requires
        base.len() > 0,
        i != j,
    ensures
        download_name(base, i) != download_name(base, j),
{
    lemma_split_extension_lengths(base);
    crate::text::lemma_decimal_nonempty(i);
    crate::text::lemma_decimal_nonempty(j);
    reveal_strlit(" (");
    reveal_strlit(")");
    reveal_strlit(").");
    if i == 0 || j == 0 {
        let k = if i == 0 {
            j
        } else {
            i
        };
        assert(download_name(base, k).len() > base.len());
    } else {
        let parts = split_extension(base);
        let stem = parts.0;
        let p = stem + " ("@;
        if download_name(base, i) == download_name(base, j) {
            let tail = match parts.1 {
                Some(e) => if e.len() > 0 {
                    ")."@ + e
                } else {
                    ")"@
                },
                None => ")"@,
            };
            assert(download_name(base, i) =~= p + decimal(i) + tail);
            assert(download_name(base, j) =~= p + decimal(j) + tail);
            assert(decimal(i).len() == decimal(j).len());
            lemma_infix_equal(p, decimal(i), tail, decimal(j), tail);
            crate::text::lemma_decimal_injective(i, j);
        }
    }
}

/// What to do after probing whether candidate name `index` is taken.
#[derive(Clone, Copy, Debug, PartialEq, Eq, Structural)]
pub enum NameProbe {
    /// Save under this candidate.
    Use,
    /// Probe this candidate next.
    Next(u32),
    /// No free name was found.
    GiveUp,
}

/// The next move after candidate `index` was found taken (`exists`) or free.
pub fn after_name_probe(index: u32, exists: bool) -> (p: NameProbe)
    requires
        index < DOWNLOAD_NAME_ATTEMPTS,
    ensures
        !exists ==> p == NameProbe::Use,
        exists && index + 1 < DOWNLOAD_NAME_ATTEMPTS ==> p == NameProbe::Next((index + 1) as u32),
        exists && index + 1 >= DOWNLOAD_NAME_ATTEMPTS ==> p == NameProbe::GiveUp,
{
    if !exists {
        NameProbe::Use
    } else if index + 1 < DOWNLOAD_NAME_ATTEMPTS {
        NameProbe::Next(index + 1)
    } else {
        NameProbe::GiveUp
    }
}

/// The error when every candidate name is taken.
pub fn no_free_name_error() -> (e: String)
    ensures
        e@ == "无法为接收文件生成不重名路径"@,
{
    "无法为接收文件生成不重名路径".to_owned()
}

/// The reason the sender refuses the file it was given, from what the file system says
/// of it.
pub open spec fn outbound_file_error(is_file: bool, size: u64) -> Option<Seq<char>> {
    if !is_file {
        Some("Phase 5 仅支持拖拽单个普通文件"@)
    } else if size == 0 {
        Some("不能发送空文件"@)
    } else if size > MAX_DIRECT_FILE_BYTES {
        Some("文件超过 100MB，请等待 Phase 6 分片传输"@)
    } else {
        None
    }
}

/// Checks that the file to send is a regular, non-empty file within the size limit.
pub fn check_outbound_file(is_file: bool, size: u64) -> (r: Result<(), String>)
    ensures
        r is Ok <==> outbound_file_error(is_file, size) is None,
        r matches Err(e) ==> outbound_file_error(is_file, size) == Some(e@),
{
    if !is_file {
        return Err("Phase 5 仅支持拖拽单个普通文件".to_owned());
    }
    if size == 0 {
        return Err("不能发送空文件".to_owned());
    }
    if size > MAX_DIRECT_FILE_BYTES {
        return Err("文件超过 100MB，请等待 Phase 6 分片传输".to_owned());
    }
    Ok(())
}

/// The sender's name for the file at `path` (as `safe_file_name` gives it), or the
/// refusal when it has none. Where every platform agrees on the final component of the
/// path, it is `safe_name_result` of it, and the refusal exactly where that is `None`.
pub fn outbound_file_name(path: &str) -> (r: Result<String, String>)
    ensures
        r matches Ok(n) ==> n@.len() > 0 && !is_dot_name(n@) && trimmed(n@) == n@,
        r matches Err(e) ==> e@ == "无法识别文件名"@,
        known_file_name(path@) matches Some(c) ==> text_result(r) == match safe_name_result(c) {
            Some(n) => Ok::<Seq<char>, Seq<char>>(n),
            None => Err::<Seq<char>, Seq<char>>("无法识别文件名"@),
        },
{
    match safe_file_name(path) {
        Some(n) => Ok(n),
        None => Err("无法识别文件名".to_owned()),
    }
}

/// A new outbound transfer of the file at `local_path`, named `filename`, of `size` bytes.
pub fn new_outbound_transfer(
    transfer_id: String,
    peer: &Device,
    filename: String,
    size: u64,
    local_path: String,
    now: i64,
) -> (t: FileTransfer)
    ensures
        t@ == (FileTransferView {
            id: transfer_id@,
            peer_device_id: peer.id@,
            peer_device_name: Some(peer.name@),
            direction: "outbound"@,
            filename: filename@,
            size: saturating_i64(size as int),
            status: "sending"@,
            local_path: Some(local_path@),
            created_at: now,
            updated_at: now,
            error: None,
        }),
{
    FileTransfer {
        id: transfer_id,
        peer_device_id: peer.id.clone(),
        peer_device_name: Some(peer.name.clone()),
        direction: "outbound".to_owned(),
        filename,
        size: u64_to_i64_saturating(size),
        status: "sending".to_owned(),
        local_path: Some(local_path),
        created_at: now,
        updated_at: now,
        error: None,
    }
}

/// Checks, before uploading, that the file read still has the size recorded.
pub fn check_read_size(len: usize, transfer: &FileTransfer) -> (r: Result<(), String>)
    ensures
        r is Ok <==> saturating_i64(len as int) == transfer.size,
        r matches Err(e) ==> e@ == "发送前文件大小发生变化"@,
{
    if usize_to_i64_saturating(len) != transfer.size {
        return Err("发送前文件大小发生变化".to_owned());
    }
    Ok(())
}

/// Path of the direct upload.
pub fn file_upload_path() -> (p: String)
    ensures
        p@ == "/api/file/upload"@,
{
    "/api/file/upload".to_owned()
}

/// The query the sender attaches to the upload of `transfer` to `peer_device_id`.
pub fn upload_query(
    transfer: &FileTransfer,
    local_device_id: &str,
    local_device_name: &str,
    peer_device_id: &str,
) -> (q: FileUploadQuery)
    ensures
        q@ == (FileUploadQueryView {
            transfer_id: transfer.id@,
            from_device_id: local_device_id@,
            from_device_name: local_device_name@,
            to_device_id: peer_device_id@,
            filename: transfer.filename@,
            size: transfer.size,
            created_at: transfer.created_at,
        }),
{
    FileUploadQuery {
        transfer_id: transfer.id.clone(),
        from_device_id: local_device_id.to_owned(),
        from_device_name: local_device_name.to_owned(),
        to_device_id: peer_device_id.to_owned(),
        filename: transfer.filename.clone(),
        size: transfer.size,
        created_at: transfer.created_at,
    }
}

/// The reason the receiver refuses an upload, checked in this order, leaving aside the
/// file name.
pub open spec fn upload_header_error(
    q: FileUploadQueryView,
    actual_size: int,
    local_device_id: Seq<char>,
) -> Option<Seq<char>> {
    if is_blank(q.transfer_id) {
        Some("transferId 不能为空"@)
    } else if is_blank(q.from_device_id) {
        Some("fromDeviceId 不能为空"@)
    } else if q.to_device_id != local_device_id {
        Some("文件目标设备不是本机"@)
    } else if q.size <= 0 {
        Some("文件内容不能为空"@)
    } else if q.size > MAX_DIRECT_FILE_BYTES {
        Some("文件超过 100MB，请等待 Phase 6 分片传输"@)
    } else if saturating_i64(actual_size) != q.size {
        Some("文件大小与声明不一致"@)
    } else {
        None
    }
}

/// Checks an upload's query, and the number of bytes that came with it, leaving aside
/// the file name.
pub fn check_upload_header(query: &FileUploadQuery, actual_size: usize, local_device_id: &str) -> (r:
    Result<(), String>)
    ensures
        r is Ok <==> upload_header_error(query@, actual_size as int, local_device_id@) is None,
        r matches Err(e) ==> upload_header_error(query@, actual_size as int, local_device_id@)
            == Some(e@),
{
    if is_blank_str(query.transfer_id.as_str()) {
        return Err("transferId 不能为空".to_owned());
    }
    if is_blank_str(query.from_device_id.as_str()) {
        return Err("fromDeviceId 不能为空".to_owned());
    }
    if !str_eq(query.to_device_id.as_str(), local_device_id) {
        return Err("文件目标设备不是本机".to_owned());
    }
    if query.size <= 0 {
        return Err("文件内容不能为空".to_owned());
    }
    if query.size > MAX_DIRECT_FILE_BYTES as i64 {
        return Err("文件超过 100MB，请等待 Phase 6 分片传输".to_owned());
    }
    if usize_to_i64_saturating(actual_size) != query.size {
        return Err("文件大小与声明不一致".to_owned());
    }
    Ok(())
}

/// The reason the receiver refuses an upload whose file name has the final component
/// `component`: the header's reason first, then the file name's.
pub open spec fn upload_error(
    q: FileUploadQueryView,
    actual_size: int,
    local_device_id: Seq<char>,
    component: Option<Seq<char>>,
) -> Option<Seq<char>> {
    match upload_header_error(q, actual_size, local_device_id) {
        Some(e) => Some(e),
        None => match clean_name_result(component) {
            Ok(_) => None,
            Err(e) => Some(e),
        },
    }
}

/// Checks an upload's query and byte count, then its file name. Where every platform
/// agrees on the final component of the file name, the upload is accepted exactly where
/// `upload_error` finds no reason, and refused with the first reason it finds.
pub fn validate_upload_query(query: &FileUploadQuery, actual_size: usize, local_device_id: &str) -> (r:
    Result<(), String>)
    ensures
        upload_header_error(query@, actual_size as int, local_device_id@) matches Some(e) ==> (
        r matches Err(x) && x@ == e),
        known_file_name(query.filename@) matches Some(c) ==> match r {
            Ok(_) => upload_error(query@, actual_size as int, local_device_id@, c) is None,
            Err(e) => upload_error(query@, actual_size as int, local_device_id@, c) == Some(e@),
        },
        r is Ok ==> upload_header_error(query@, actual_size as int, local_device_id@) is None,
        r matches Err(e) ==> upload_header_error(query@, actual_size as int, local_device_id@)
            == Some(e@) || e@ == "文件名无效"@ || e@ == "文件名不能包含路径"@,
{
    check_upload_header(query, actual_size, local_device_id)?;
    sanitize_inbound_filename(query.filename.as_str())?;
    Ok(())
}

/// The query a sender attaches to the upload of a file it accepted passes the receiver's
/// checks, when the receiver is the peer it is addressed to, all bytes arrive, and the
/// transfer id and the sender's id are not blank.
pub proof fn lemma_receiver_accepts_sender_upload(
    transfer_id: Seq<char>,
    file_size: u64,
    local_device_id: Seq<char>,
    local_device_name: Seq<char>,
    filename: Seq<char>,
    peer_device_id: Seq<char>,
    created_at: i64,
)
    requires
        outbound_file_error(true, file_size) is None,
        !is_blank(transfer_id),
        !is_blank(local_device_id),
    ensures
        upload_header_error(
            FileUploadQueryView {
                transfer_id,
                from_device_id: local_device_id,
                from_device_name: local_device_name,
                to_device_id: peer_device_id,
                filename,
                size: saturating_i64(file_size as int),
                created_at,
            },
            file_size as int,
            peer_device_id,
        ) is None,
{
}

/// The record of an accepted inbound upload, saved as `filename` at `local_path`. The
/// peer's name is the one in the query unless that one is blank, then the stored one.
pub fn new_inbound_transfer(
    query: FileUploadQuery,
    stored_peer_name: String,
    filename: String,
    local_path: String,
    now: i64,
) -> (t: FileTransfer)
    ensures
        t@ == (FileTransferView {
            id: query.transfer_id@,
            peer_device_id: query.from_device_id@,
            peer_device_name: Some(
                if is_blank(query.from_device_name@) {
                    stored_peer_name@
                } else {
                    query.from_device_name@
                },
            ),
            direction: "inbound"@,
            filename: filename@,
            size: query.size,
            status: "receiving"@,
            local_path: Some(local_path@),
            created_at: query.created_at,
            updated_at: now,
            error: None,
        }),
{
    let name = if is_blank_str(query.from_device_name.as_str()) {
        stored_peer_name
    } else {
        query.from_device_name
    };
    FileTransfer {
        id: query.transfer_id,
        peer_device_id: query.from_device_id,
        peer_device_name: Some(name),
        direction: "inbound".to_owned(),
        filename,
        size: query.size,
        status: "receiving".to_owned(),
        local_path: Some(local_path),
        created_at: query.created_at,
        updated_at: now,
        error: None,
    }
}

/// The record of an inbound transfer once its bytes are on disk.
pub fn mark_received(transfer: FileTransfer, now: i64) -> (t: FileTransfer)
    ensures
        t@ == (FileTransferView { status: "received"@, updated_at: now, ..transfer@ }),
{
    FileTransfer { status: "received".to_owned(), updated_at: now, ..transfer }
}

} // verus!
