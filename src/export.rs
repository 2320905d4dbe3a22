//! Naming the files of a transcript export.
use crate::history::{file_name, file_name_of};
use crate::registry::{path_exists, views};
use crate::text::{
    ascii_lowercase, decimal, join, join_path, lemma_decimal_injective, lower, owned,
    push_char, push_decimal, str_eq, trim, trimmed,
};
use vstd::relations::injective_on;
use vstd::set_lib::{lemma_int_range, lemma_len_subset, lemma_map_size, set_int_range};
use vstd::prelude::*;

verus! {

/// How an export is packaged.
#[derive(Debug, Clone, Copy, PartialEq, Eq, Default)]
pub enum ExportFormat {
    #[default]
    Zip,
    Folder,
}

/// How exported files are named.
#[derive(Debug, Clone, Copy, PartialEq, Eq, Default)]
pub enum ExportNaming {
    #[default]
    Preserve,
    Timestamp,
    Numbered,
}

/// What the caller asked of an export.
#[derive(Debug, Clone, Copy, PartialEq, Eq)]
pub struct ExportOptions {
    pub format: ExportFormat,
    pub naming: ExportNaming,
    pub include_metadata: bool,
    pub preserve_structure: bool,
}

impl Default for ExportOptions {
    fn default() -> (r: Self)
        ensures
            r.format == ExportFormat::Zip,
            r.naming == ExportNaming::Preserve,
            r.include_metadata,
            !r.preserve_structure,
    {
        ExportOptions {
            format: ExportFormat::Zip,
            naming: ExportNaming::Preserve,
            include_metadata: true,
            preserve_structure: false,
        }
    }
}

/// One queue item offered for export.
#[derive(Debug, Clone, PartialEq, Eq)]
pub struct ExportItem {
    pub id: String,
    pub status: String,
    pub relative_path: Option<String>,
    pub transcript_path: Option<String>,
    pub json_path: Option<String>,
}

/// `path` with every `\` turned into `/`.
pub open spec fn forward_slashes(path: Seq<char>) -> Seq<char> {
    Seq::new(
        path.len(),
        |i: int|
            if path[i] == '\\' {
                '/'
            } else {
                path[i]
            },
    )
}

/// An export entry name with forward slashes only.
pub fn normalize_export_name(path: &str) -> (r: String)
    ensures
        r@ == forward_slashes(path@),
{
    let n = path.unicode_len();
    let mut out = String::new();
    let mut i: usize = 0;
    while i < n
        invariant
            0 <= i <= n,
            n == path@.len(),
            out@ == forward_slashes(path@).subrange(0, i as int),
        decreases n - i,
    {
        let c = path.get_char(i);
        let d = if c == '\\' {
            '/'
        } else {
            c
        };
        push_char(&mut out, d);
        assert(forward_slashes(path@).subrange(0, i + 1) =~= forward_slashes(path@).subrange(
            0,
            i as int,
        ).push(d));
        i = i + 1;
    }
    assert(forward_slashes(path@).subrange(0, n as int) =~= forward_slashes(path@));
    out
}

/// Index of the last `.` among the first `i` characters of `s`, or -1.
pub open spec fn last_dot_before(s: Seq<char>, i: int) -> int
    decreases i,
{
    if i <= 0 || i > s.len() {
        -1
    } else if s[i - 1] == '.' {
        i - 1
    } else {
        last_dot_before(s, i - 1)
    }
}

/// A name split at its last dot into stem and extension, where both are
/// non-empty; otherwise the whole name and an empty extension.
pub open spec fn stem_and_extension(name: Seq<char>) -> (Seq<char>, Seq<char>) {
    let k = last_dot_before(name, name.len() as int);
    if k > 0 && k + 1 < name.len() {
        (name.subrange(0, k), name.subrange(k + 1, name.len() as int))
    } else {
        (name, Seq::empty())
    }
}

proof fn lemma_last_dot_before(s: Seq<char>, i: int)
    requires
        0 <= i <= s.len(),
    ensures
        -1 <= last_dot_before(s, i) < i,
    decreases i,
{
    if i > 0 && s[i - 1] != '.' {
        lemma_last_dot_before(s, i - 1);
    }
}

/// The stem and extension of the file a path names; a path without a file
/// name is split as it is.
pub fn split_file_name(path: &str) -> (r: (String, String))
    ensures
        ({
            let candidate = match file_name_of(path@) {
                Some(n) => n,
                None => path@,
            };
            r.0@ == stem_and_extension(candidate).0 && r.1@ == stem_and_extension(candidate).1
        }),
{
    let candidate = match file_name(path) {
        Some(n) => n,
        None => owned(path),
    };
    let c = candidate.as_str();
    let n = c.unicode_len();
    let mut i: usize = n;
    while i > 0 && c.get_char(i - 1) != '.'
        invariant
            0 <= i <= n,
            n == c@.len(),
            last_dot_before(c@, n as int) == last_dot_before(c@, i as int),
        decreases i,
    {
        i = i - 1;
    }
    proof {
        lemma_last_dot_before(c@, n as int);
    }
    if i > 1 && i < n {
        (owned(c.substring_char(0, i - 1)), owned(c.substring_char(i, n)))
    } else {
        (owned(c), String::new())
    }
}

/// `s` padded on the left with zeros to at least `width` characters.
pub open spec fn zero_padded(s: Seq<char>, width: nat) -> Seq<char> {
    if s.len() >= width {
        s
    } else {
        Seq::new((width - s.len()) as nat, |i: int| '0') + s
    }
}

/// The decimal text of `n`, padded with zeros to at least `width`
/// characters.
pub fn zero_padded_decimal(n: u64, width: usize) -> (r: String)
    ensures
        r@ == zero_padded(decimal(n as nat), width as nat),
{
    let mut digits = String::new();
    push_decimal(&mut digits, n as u128);
    let len = digits.unicode_len();
    if len >= width {
        return digits;
    }
    let mut out = String::new();
    let mut i: usize = 0;
    while i < width - len
        invariant
            0 <= i <= width - len,
            len < width,
            out@ == Seq::new(i as nat, |k: int| '0'),
        decreases width - len - i,
    {
        push_char(&mut out, '0');
        assert(out@ =~= Seq::new((i + 1) as nat, |k: int| '0'));
        i = i + 1;
    }
    out.append(digits.as_str());
    out
}

/// The name a transcript is exported under.
pub open spec fn export_name(name: Seq<char>, naming: ExportNaming, sequence: nat, prefix: Seq<char>) -> Seq<
    char,
> {
    match naming {
        ExportNaming::Preserve => name,
        ExportNaming::Timestamp => prefix + "_"@ + name,
        ExportNaming::Numbered => zero_padded(decimal(sequence), 4) + "_"@ + name,
    }
}

/// The name a transcript is exported under; a path without a file name is
/// refused.
pub fn export_name_for(source_path: &str, naming: ExportNaming, sequence: u64, timestamp_prefix: &str) -> (r:
    Result<String, String>)
    ensures
        file_name_of(source_path@) is None ==> (r is Err && r->Err_0@
            == "Invalid transcript file name: "@ + source_path@),
        file_name_of(source_path@) matches Some(n) ==> (r is Ok && r->Ok_0@ == export_name(
            n,
            naming,
            sequence as nat,
            timestamp_prefix@,
        )),
{
    let name = match file_name(source_path) {
        Some(n) => n,
        None => {
            let mut m = String::from_str("Invalid transcript file name: ");
            m.append(source_path);
            return Err(m);
        },
    };
    match naming {
        ExportNaming::Preserve => Ok(name),
        ExportNaming::Timestamp => {
            let mut out = owned(timestamp_prefix);
            out.append("_");
            out.append(name.as_str());
            Ok(out)
        },
        ExportNaming::Numbered => {
            let mut out = zero_padded_decimal(sequence, 4);
            out.append("_");
            out.append(name.as_str());
            Ok(out)
        },
    }
}

/// The `k`th numbered variant of a name: `head`, then `k` in decimal, then
/// `tail`.
pub open spec fn numbered(head: Seq<char>, k: int, tail: Seq<char>) -> Seq<char> {
    head + decimal(k as nat) + tail
}

proof fn lemma_numbered_injective(head: Seq<char>, tail: Seq<char>, a: int, b: int)
    requires
        a >= 0,
        b >= 0,
        numbered(head, a, tail) == numbered(head, b, tail),
    ensures
        a == b,
{
    let da = decimal(a as nat);
    let db = decimal(b as nat);
    let na = numbered(head, a, tail);
    let nb = numbered(head, b, tail);
    assert(na.len() == head.len() + da.len() + tail.len());
    assert(nb.len() == head.len() + db.len() + tail.len());
    assert(da.len() == db.len());
    assert(da =~= na.subrange(head.len() as int, (head.len() + da.len()) as int));
    assert(db =~= na.subrange(head.len() as int, (head.len() + db.len()) as int));
    lemma_decimal_injective(a as nat, b as nat);
}

/// `hi - lo` distinct numbered variants cannot all lie among fewer than
/// `hi - lo` names.
proof fn lemma_variants_exceed(used: Seq<Seq<char>>, head: Seq<char>, tail: Seq<char>, lo: int, hi: int)
    requires
        0 <= lo <= hi,
        forall|j: int| lo <= j < hi ==> used.contains(#[trigger] numbered(head, j, tail)),
    ensures
        hi - lo <= used.len(),
{
    let f = |j: int| numbered(head, j, tail);
    let x = set_int_range(lo, hi);
    lemma_int_range(lo, hi);
    assert(injective_on(f, x)) by {
        assert forall|a: int, b: int| x.contains(a) && x.contains(b) && #[trigger] f(a) == #[trigger] f(
            b,
        ) implies a == b by {
            lemma_numbered_injective(head, tail, a, b);
        }
    }
    let y = x.map(f);
    lemma_map_size(x, y, f);
    assert(y.subset_of(used.to_set())) by {
        assert forall|v: Seq<char>| y.contains(v) implies used.to_set().contains(v) by {
            let j = choose|j: int| x.contains(j) && v == f(j);
            assert(used.contains(numbered(head, j, tail)));
        }
    }
    used.lemma_cardinality_of_set();
    lemma_len_subset(y, used.to_set());
}

/// Index of the last `/` among the first `i` characters of `s`, or -1.
pub open spec fn last_slash_before(s: Seq<char>, i: int) -> int
    decreases i,
{
    if i <= 0 || i > s.len() {
        -1
    } else if s[i - 1] == '/' {
        i - 1
    } else {
        last_slash_before(s, i - 1)
    }
}

proof fn lemma_last_slash_before(s: Seq<char>, i: int)
    requires
        0 <= i <= s.len(),
    ensures
        -1 <= last_slash_before(s, i) < i,
    decreases i,
{
    if i > 0 && s[i - 1] != '/' {
        lemma_last_slash_before(s, i - 1);
    }
}

/// The fixed parts of the numbered variants of a taken name: its directory
/// (with a slash) and stem followed by `-`, and `.` with its extension where
/// it has one.
pub open spec fn variant_parts(candidate: Seq<char>) -> (Seq<char>, Seq<char>) {
    let normalized = forward_slashes(candidate);
    let k = last_slash_before(normalized, normalized.len() as int);
    let parent = if k >= 0 {
        normalized.subrange(0, k)
    } else {
        Seq::empty()
    };
    let file = if k >= 0 {
        normalized.subrange(k + 1, normalized.len() as int)
    } else {
        normalized
    };
    let name = match file_name_of(file) {
        Some(n) => n,
        None => file,
    };
    let stem = stem_and_extension(name).0;
    let ext = stem_and_extension(name).1;
    let head = if parent.len() == 0 {
        stem + "-"@
    } else {
        parent + "/"@ + stem + "-"@
    };
    let tail = if ext.len() == 0 {
        Seq::empty()
    } else {
        "."@ + ext
    };
    (head, tail)
}

/// Whether `names` holds `name`.
pub fn contains_name(names: &[String], name: &str) -> (r: bool)
    ensures
        r == views(names@).contains(name@),
{
    let n = names.len();
    let mut i: usize = 0;
    while i < n
        invariant
            0 <= i <= n,
            n == names@.len(),
            forall|k: int| 0 <= k < i ==> views(names@)[k] != name@,
        decreases n - i,
    {
        if str_eq(names[i].as_str(), name) {
            assert(views(names@)[i as int] == name@);
            return true;
        }
        i = i + 1;
    }
    false
}

/// The fixed parts of the numbered variants of `candidate`.
fn variant_parts_of(candidate: &str) -> (r: (String, String))
    ensures
        r.0@ == variant_parts(candidate@).0,
        r.1@ == variant_parts(candidate@).1,
{
    let normalized = normalize_export_name(candidate);
    let s = normalized.as_str();
    let n = s.unicode_len();
    let mut i: usize = n;
    while i > 0 && s.get_char(i - 1) != '/'
        invariant
            0 <= i <= n,
            n == s@.len(),
            last_slash_before(s@, n as int) == last_slash_before(s@, i as int),
        decreases i,
    {
        i = i - 1;
    }
    proof {
        lemma_last_slash_before(s@, n as int);
    }
    let (parent, file) = if i > 0 {
        (s.substring_char(0, i - 1), s.substring_char(i, n))
    } else {
        ("", s)
    };
    let ghost k = last_slash_before(s@, n as int);
    proof {
        reveal_strlit("");
    }
    assert(i > 0 ==> k == i - 1);
    assert(i == 0 ==> k == -1);
    assert(parent@ =~= (if k >= 0 {
        s@.subrange(0, k)
    } else {
        Seq::empty()
    }));
    assert(file@ =~= (if k >= 0 {
        s@.subrange(k + 1, n as int)
    } else {
        s@
    }));
    let (stem, ext) = split_file_name(file);
    let mut head = String::new();
    if parent.unicode_len() > 0 {
        head.append(parent);
        head.append("/");
    }
    head.append(stem.as_str());
    head.append("-");
    assert(head@ =~= (if parent@.len() == 0 {
        stem@ + "-"@
    } else {
        parent@ + "/"@ + stem@ + "-"@
    }));
    let mut tail = String::new();
    if ext.unicode_len() > 0 {
        tail.append(".");
        tail.append(ext.as_str());
    }
    assert(tail@ =~= (if ext@.len() == 0 {
        Seq::empty()
    } else {
        "."@ + ext@
    }));
    (head, tail)
}

/// Claims a unique export name: `candidate` where it is not taken yet,
/// else the first free numbered variant (`stem-2.ext`, `stem-3.ext`, ...).
/// The name chosen is added to `used`.
pub fn dedupe_path(candidate: String, used: &mut Vec<String>) -> (r: String)
    ensures
        !views(old(used)@).contains(candidate@) ==> r@ == candidate@,
        views(old(used)@).contains(candidate@) ==> exists|k: int|
            2 <= k && r@ == numbered(variant_parts(candidate@).0, k, variant_parts(candidate@).1)
                && forall|j: int|
                2 <= j < k ==> views(old(used)@).contains(
                    #[trigger] numbered(variant_parts(candidate@).0, j, variant_parts(candidate@).1),
                ),
        !views(old(used)@).contains(r@),
        views(final(used)@) == views(old(used)@).push(r@),
{
    if !contains_name(used.as_slice(), candidate.as_str()) {
        let ghost before = used@;
        used.push(owned(candidate.as_str()));
        assert(views(used@) =~= views(before).push(candidate@));
        return candidate;
    }
    let (head, tail) = variant_parts_of(candidate.as_str());
    let n = used.len();
    let mut index: u128 = 2;
    while index <= (n as u128) + 2
        invariant
            2 <= index <= n + 3,
            n == used@.len(),
            used@ == old(used)@,
            views(old(used)@).contains(candidate@),
            head@ == variant_parts(candidate@).0,
            tail@ == variant_parts(candidate@).1,
            forall|j: int|
                2 <= j < index ==> views(used@).contains(#[trigger] numbered(head@, j, tail@)),
        decreases n + 3 - index,
    {
        let mut next = owned(head.as_str());
        push_decimal(&mut next, index);
        next.append(tail.as_str());
        assert(next@ == numbered(head@, index as int, tail@));
        if !contains_name(used.as_slice(), next.as_str()) {
            let ghost before = used@;
            used.push(owned(next.as_str()));
            assert(views(used@) =~= views(before).push(next@));
            return next;
        }
        index = index + 1;
    }
    proof {
        lemma_variants_exceed(views(used@), head@, tail@, 2, n + 3);
        assert(views(used@).len() == n);
    }
    candidate
}

/// The components of a path's parent directory, in order, as
/// `Path::parent` and `Path::components` give them: `Some` with the text of
/// an ordinary component, `None` for a root, `.` or `..`.
pub uninterp spec fn parent_components_of(path: Seq<char>) -> Seq<Option<Seq<char>>>;

/// Relies on `Path::parent` and `Path::components`: the components depend
/// on the path alone.
#[verifier::external_body]
fn parent_components(path: &str) -> (r: Vec<Option<String>>)
    ensures
        r@.map_values(|c: Option<String>| crate::outcome::opt_view(c)) == parent_components_of(path@),
{
    let parent = std::path::Path::new(path).parent().unwrap_or_else(|| std::path::Path::new(""));
    parent
        .components()
        .map(|component| match component {
            std::path::Component::Normal(segment) => Some(segment.to_string_lossy().to_string()),
            std::path::Component::Prefix(_) => None,
            std::path::Component::RootDir => None,
            std::path::Component::CurDir => None,
            std::path::Component::ParentDir => None,
        })
        .collect()
}

/// The ordinary components among `parts`, joined by `/`.
pub open spec fn joined_normal(parts: Seq<Option<Seq<char>>>) -> Seq<char>
    decreases parts.len(),
{
    if parts.len() == 0 {
        Seq::empty()
    } else {
        match parts.last() {
            Some(segment) => join_path(joined_normal(parts.drop_last()), segment),
            None => joined_normal(parts.drop_last()),
        }
    }
}

/// The directory an item is exported under when the structure is kept: the
/// ordinary components of the parent of its relative path; nothing that
/// climbs out (`..`) or is absolute survives.
pub fn sanitize_parent_path(relative_path: Option<&str>) -> (r: String)
    ensures
        relative_path is None ==> r@.len() == 0,
        relative_path matches Some(p) ==> r@ == joined_normal(parent_components_of(p@)),
{
    let raw = match relative_path {
        Some(raw) => raw,
        None => {
            return String::new();
        },
    };
    let parts = parent_components(raw);
    let ghost model = parts@.map_values(|c: Option<String>| crate::outcome::opt_view(c));
    let n = parts.len();
    let mut out = String::new();
    let mut i: usize = 0;
    while i < n
        invariant
            0 <= i <= n,
            n == parts@.len(),
            model == parts@.map_values(|c: Option<String>| crate::outcome::opt_view(c)),
            out@ == joined_normal(model.subrange(0, i as int)),
        decreases n - i,
    {
        assert(model.subrange(0, i + 1).drop_last() =~= model.subrange(0, i as int));
        if let Some(segment) = &parts[i] {
            out = join(out.as_str(), segment.as_str());
        }
        i = i + 1;
    }
    assert(model.subrange(0, n as int) =~= model);
    out
}

/// Whether an item's status marks it as done, in any case.
pub open spec fn is_completed_status(status: Seq<char>) -> bool {
    lower(status) == "completed"@
}

/// The transcript files an item offers: its text and JSON transcripts, each
/// where given and not blank, trimmed.
pub open spec fn item_sources(item: ExportItem) -> Seq<Seq<char>> {
    let txt = match item.transcript_path {
        Some(p) => if trimmed(p@).len() > 0 {
            seq![trimmed(p@)]
        } else {
            Seq::empty()
        },
        None => Seq::empty(),
    };
    let json = match item.json_path {
        Some(p) => if trimmed(p@).len() > 0 {
            seq![trimmed(p@)]
        } else {
            Seq::empty()
        },
        None => Seq::empty(),
    };
    txt + json
}

/// The transcript files an item offers.
pub fn export_sources_of(item: &ExportItem) -> (r: Vec<String>)
    ensures
        views(r@) == item_sources(*item),
{
    let mut sources: Vec<String> = Vec::new();
    if let Some(path) = &item.transcript_path {
        let t = trim(path.as_str());
        if t.unicode_len() > 0 {
            sources.push(owned(t));
        }
    }
    let ghost first = views(sources@);
    if let Some(path) = &item.json_path {
        let t = trim(path.as_str());
        if t.unicode_len() > 0 {
            sources.push(owned(t));
        }
    }
    assert(views(sources@) =~= item_sources(*item));
    sources
}

/// One transcript file chosen for export and the name it goes under.
#[derive(Debug, Clone, PartialEq, Eq)]
pub struct PreparedExportFile {
    pub source_path: String,
    pub export_path: String,
    pub item_id: String,
}

/// Relies on `chrono::Utc::now` and `format("%Y%m%dT%H%M%SZ")`: the current
/// time as a compact prefix. Nothing is promised of the value.
#[verifier::external_body]
pub fn export_timestamp_prefix() -> String {
    chrono::Utc::now().format("%Y%m%dT%H%M%SZ").to_string()
}

/// `file` was taken from `item`: a completed item that offers its source.
pub open spec fn exported_from(item: ExportItem, file: PreparedExportFile) -> bool {
    is_completed_status(item.status@) && file.item_id@ == item.id@ && item_sources(item).contains(
        file.source_path@,
    )
}

/// `file` was taken from one of `items`.
pub open spec fn from_some_item(items: Seq<ExportItem>, file: PreparedExportFile) -> bool {
    exists|k: int| 0 <= k < items.len() && #[trigger] exported_from(items[k], file)
}

/// The files to export: for each completed item, its transcripts in order,
/// each under a unique name (numbered in order of appearance where the
/// naming asks for it, under the item's sanitized directory where the
/// structure is kept). A transcript missing on disk, or without a file
/// name, stops the export with an error.
pub fn collect_export_sources(items: &[ExportItem], options: &ExportOptions) -> (r: Result<
    Vec<PreparedExportFile>,
    String,
>)
    ensures
        r matches Ok(files) ==> forall|i: int|
            0 <= i < files@.len() ==> from_some_item(items@, #[trigger] files@[i]),
{
    let mut prepared: Vec<PreparedExportFile> = Vec::new();
    let mut used: Vec<String> = Vec::new();
    let timestamp_prefix = export_timestamp_prefix();
    let mut sequence: u64 = 1;
    let n = items.len();
    let mut i: usize = 0;
    while i < n
        invariant
            0 <= i <= n,
            n == items@.len(),
            forall|f: int| 0 <= f < prepared@.len() ==> from_some_item(items@, #[trigger] prepared@[f]),
        decreases n - i,
    {
        let item = &items[i];
        let status = ascii_lowercase(item.status.as_str());
        if str_eq(status.as_str(), "completed") {
            let sources = export_sources_of(item);
            let parent = if options.preserve_structure {
                match &item.relative_path {
                    Some(p) => sanitize_parent_path(Some(p.as_str())),
                    None => sanitize_parent_path(None),
                }
            } else {
                String::new()
            };
            let m = sources.len();
            assert(views(sources@).len() == sources@.len());
            let mut j: usize = 0;
            while j < m
                invariant
                    0 <= j <= m,
                    m == sources@.len(),
                    0 <= i < n,
                    n == items@.len(),
                    *item == items@[i as int],
                    is_completed_status(items@[i as int].status@),
                    views(sources@) == item_sources(items@[i as int]),
                    forall|f: int|
                        0 <= f < prepared@.len() ==> from_some_item(items@, #[trigger] prepared@[f]),
                decreases m - j,
            {
                let source = &sources[j];
                if !path_exists(source.as_str()) {
                    let mut message = String::from_str("Transcript file not found: ");
                    message.append(source.as_str());
                    return Err(message);
                }
                let file_name = match export_name_for(
                    source.as_str(),
                    options.naming,
                    sequence,
                    timestamp_prefix.as_str(),
                ) {
                    Ok(name) => name,
                    Err(e) => {
                        return Err(e);
                    },
                };
                if sequence < u64::MAX {
                    sequence = sequence + 1;
                }
                let candidate = join(parent.as_str(), file_name.as_str());
                let unique = dedupe_path(candidate, &mut used);
                let export_path = normalize_export_name(unique.as_str());
                let ghost before = prepared@;
                assert(views(sources@)[j as int] == source@);
                prepared.push(
                    PreparedExportFile {
                        source_path: owned(source.as_str()),
                        export_path,
                        item_id: owned(item.id.as_str()),
                    },
                );
                assert forall|f: int| 0 <= f < prepared@.len() implies from_some_item(
                    items@,
                    #[trigger] prepared@[f],
                ) by {
                    if f == before.len() {
                        assert(views(sources@)[j as int] == sources@[j as int]@);
                        assert(item_sources(items@[i as int]).contains(source@));
                        assert(exported_from(items@[i as int], prepared@[f]));
                    } else {
                        assert(prepared@[f] == before[f]);
                    }
                }
                j = j + 1;
            }
        }
        i = i + 1;
    }
    Ok(prepared)
}

/// One exported file as the metadata lists it.
#[derive(Debug, Clone, PartialEq, Eq)]
pub struct ExportMetadataEntry {
    pub item_id: String,
    pub source_path: String,
    pub exported_path: String,
}

/// The summary written beside the exported files.
#[derive(Debug, Clone, PartialEq, Eq)]
pub struct ExportMetadata {
    pub exported_at: String,
    pub total_items: usize,
    pub completed_items: usize,
    pub failed_items: usize,
    pub exported_files: usize,
    pub entries: Vec<ExportMetadataEntry>,
}

/// How many items have a status equal to `status` in any case.
pub open spec fn count_items(items: Seq<ExportItem>, status: Seq<char>) -> nat
    decreases items.len(),
{
    if items.len() == 0 {
        0
    } else {
        count_items(items.drop_last(), status) + if lower(items.last().status@) == status {
            1nat
        } else {
            0nat
        }
    }
}

proof fn lemma_count_items_bound(items: Seq<ExportItem>, status: Seq<char>)
    ensures
        count_items(items, status) <= items.len(),
    decreases items.len(),
{
    if items.len() > 0 {
        lemma_count_items_bound(items.drop_last(), status);
    }
}

/// The number of items whose status is `status` in any case (`status` in
/// lower case).
pub fn count_items_with_status(items: &[ExportItem], status: &str) -> (r: usize)
    ensures
        r == count_items(items@, status@),
{
    let n = items.len();
    let mut count: usize = 0;
    let mut i: usize = 0;
    while i < n
        invariant
            0 <= i <= n,
            n == items@.len(),
            count == count_items(items@.subrange(0, i as int), status@),
        decreases n - i,
    {
        proof {
            lemma_count_items_bound(items@.subrange(0, i as int), status@);
            assert(items@.subrange(0, i + 1).drop_last() =~= items@.subrange(0, i as int));
        }
        let lowered = ascii_lowercase(items[i].status.as_str());
        if str_eq(lowered.as_str(), status) {
            count = count + 1;
        }
        i = i + 1;
    }
    assert(items@.subrange(0, n as int) =~= items@);
    count
}

/// Relies on `chrono::Utc::now` and `to_rfc3339`: the current time.
/// Nothing is promised of the value.
#[verifier::external_body]
pub fn exported_at_now() -> String {
    chrono::Utc::now().to_rfc3339()
}

/// The metadata of an export: item counts by status and one entry per
/// exported file, in order.
pub fn build_metadata(items: &[ExportItem], files: &[PreparedExportFile]) -> (r: ExportMetadata)
    ensures
        r.total_items == items@.len(),
        r.completed_items == count_items(items@, "completed"@),
        r.failed_items == count_items(items@, "error"@),
        r.exported_files == files@.len(),
        r.entries@.len() == files@.len(),
        forall|i: int|
            0 <= i < files@.len() ==> (#[trigger] r.entries@[i]).item_id@ == files@[i].item_id@
                && r.entries@[i].source_path@ == files@[i].source_path@
                && r.entries@[i].exported_path@ == files@[i].export_path@,
{
    let n = files.len();
    let mut entries: Vec<ExportMetadataEntry> = Vec::new();
    let mut i: usize = 0;
    while i < n
        invariant
            0 <= i <= n,
            n == files@.len(),
            entries@.len() == i,
            forall|k: int|
                0 <= k < i ==> (#[trigger] entries@[k]).item_id@ == files@[k].item_id@
                    && entries@[k].source_path@ == files@[k].source_path@
                    && entries@[k].exported_path@ == files@[k].export_path@,
        decreases n - i,
    {
        let f = &files[i];
        entries.push(
            ExportMetadataEntry {
                item_id: owned(f.item_id.as_str()),
                source_path: owned(f.source_path.as_str()),
                exported_path: owned(f.export_path.as_str()),
            },
        );
        i = i + 1;
    }
    ExportMetadata {
        exported_at: exported_at_now(),
        total_items: items.len(),
        completed_items: count_items_with_status(items, "completed"),
        failed_items: count_items_with_status(items, "error"),
        exported_files: files.len(),
        entries,
    }
}

} // verus!
