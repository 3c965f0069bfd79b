//! The exporter's configuration tree, its default-filling constructors, and the
//! decisions of payload resolution.
use vstd::prelude::*;
use vstd::string::*;

verus! {

/// One label attached to a counter's samples.
#[derive(Debug, Clone, PartialEq, Eq, Default)]
pub struct LabelConfig {
    pub name: String,
    /// The event field the label's value is read from; empty means the label's own name.
    pub from: String,
}

/// One exposed counter.
#[derive(Debug, Clone, PartialEq, Eq, Default)]
pub struct CounterConfig {
    pub name: String,
    pub description: String,
    pub labels: Vec<LabelConfig>,
}

/// The metric declarations of one program.
#[derive(Debug, Clone, PartialEq, Eq, Default)]
pub struct MetricsConfig {
    pub counters: Vec<CounterConfig>,
}

/// One data-collection program.
#[derive(Debug, Clone, PartialEq, Eq, Default)]
pub struct ProgramConfig {
    pub name: String,
    pub metrics: MetricsConfig,
    /// The inline payload; empty until resolved when it is deferred to a file.
    pub ebpf_data: String,
    /// The file that holds the payload when it is not given inline.
    pub compiled_ebpf_filename: String,
}

/// The whole configuration document: programs in the order they were written.
#[derive(Debug, Clone, PartialEq, Eq, Default)]
pub struct ExporterConfig {
    pub programs: Vec<ProgramConfig>,
}

/// Why a configuration could not be loaded.
#[derive(Debug, Clone, PartialEq, Eq)]
pub enum ConfigError {
    /// The document is not valid in its syntax or does not fit the schema.
    Parse { message: String },
    /// The named program has neither an inline payload nor a payload file.
    UnresolvedPayload { program: String },
    /// The file at `path` could not be read.
    Io { path: String, cause: String },
}

/// The two accepted syntaxes of a configuration document.
#[derive(Debug, Clone, Copy, PartialEq, Eq)]
pub enum ConfigSyntax {
    Json,
    Yaml,
}

/// The text `o` holds, or the empty text when it is absent.
pub open spec fn text_or_empty(o: Option<String>) -> Seq<char> {
    match o {
        Some(s) => s@,
        None => Seq::empty(),
    }
}

/// The suffix that selects JSON syntax.
pub open spec fn json_suffix() -> Seq<char> {
    seq!['.', 'j', 's', 'o', 'n']
}

/// Whether `path` ends with the JSON suffix.
pub open spec fn is_json_path(path: Seq<char>) -> bool {
    path.len() >= json_suffix().len() && path.subrange(
        path.len() - json_suffix().len(),
        path.len() as int,
    ) == json_suffix()
}

/// The payload of `p` is given inline.
pub open spec fn has_inline_payload(p: ProgramConfig) -> bool {
    p.ebpf_data@.len() > 0
}

/// `p` names a file that holds its payload.
pub open spec fn has_payload_file(p: ProgramConfig) -> bool {
    p.compiled_ebpf_filename@.len() > 0
}

/// The first index at or after `from` whose program has no inline payload, or the
/// number of programs when there is none.
pub open spec fn first_pending(progs: Seq<ProgramConfig>, from: int) -> int
    decreases progs.len() - from,
{
    if from >= progs.len() {
        progs.len() as int
    } else if !has_inline_payload(progs[from]) {
        from
    } else {
        first_pending(progs, from + 1)
    }
}

/// Resolution moves forward and passes over inline payloads: the program that a
/// resolution step chooses from index `from` on lies at or after `from`, and is
/// never one whose payload is already inline, so such a payload is kept whatever
/// file the program names.
pub proof fn lemma_inline_payload_kept(progs: Seq<ProgramConfig>, from: int, j: int)
    requires
        0 <= from <= progs.len(),
        0 <= j < progs.len(),
        has_inline_payload(progs[j]),
    ensures
        from <= first_pending(progs, from) <= progs.len(),
        first_pending(progs, from) != j,
    decreases progs.len() - from,
{
    if from < progs.len() && has_inline_payload(progs[from]) {
        lemma_inline_payload_kept(progs, from + 1, j);
    }
}

/// Filling a program's payload does not change where resolution goes on: the
/// search from any index after it sees the same programs.
pub proof fn lemma_fill_keeps_later_steps(
    progs: Seq<ProgramConfig>,
    p: int,
    q: ProgramConfig,
    from: int,
)
    requires
        0 <= p < from <= progs.len(),
    ensures
        first_pending(progs.update(p, q), from) == first_pending(progs, from),
    decreases progs.len() - from,
{
    let updated = progs.update(p, q);
    if from < progs.len() {
        assert(updated[from] == progs[from]);
        lemma_fill_keeps_later_steps(progs, p, q, from + 1);
    }
}

/// A program with neither an inline payload nor a payload file is reported by
/// name: when each program before it, from index `from` on, has an inline payload
/// or a payload file, the resolution step from `from` either stops at it with the
/// error or chooses an earlier program whose file it reads; after that read the
/// step from the next index finds the same situation, with `k` still ahead.
pub proof fn lemma_unresolved_program_reached(progs: Seq<ProgramConfig>, from: int, k: int)
    requires
        0 <= from <= k < progs.len(),
        !has_inline_payload(progs[k]),
        !has_payload_file(progs[k]),
        forall|j: int|
            from <= j < k ==> has_inline_payload(#[trigger] progs[j]) || has_payload_file(
                progs[j],
            ),
    ensures
        ({
            let p = first_pending(progs, from);
            &&& from <= p <= k
            &&& p == k || (has_payload_file(progs[p]) && p + 1 <= k)
            &&& forall|q: ProgramConfig|
                first_pending(#[trigger] progs.update(p, q), p + 1) == first_pending(
                    progs,
                    p + 1,
                )
        }),
    decreases k - from,
{
    if has_inline_payload(progs[from]) {
        lemma_unresolved_program_reached(progs, from + 1, k);
    }
    let p = first_pending(progs, from);
    assert forall|q: ProgramConfig|
        first_pending(#[trigger] progs.update(p, q), p + 1) == first_pending(progs, p + 1) by {
        lemma_fill_keeps_later_steps(progs, p, q, p + 1);
    }
}

impl ConfigSyntax {
    /// The syntax a configuration file is read in: JSON for a `.json` path, YAML for
    /// any other.
    pub fn for_path(path: &str) -> (r: ConfigSyntax)
        ensures
            r == (if is_json_path(path@) {
                ConfigSyntax::Json
            } else {
                ConfigSyntax::Yaml
            }),
    {
        let n = path.unicode_len();
        let suffix = ".json";
        proof {
            reveal_strlit(".json");
            assert(suffix@ =~= json_suffix());
        }
        if n < 5 {
            return ConfigSyntax::Yaml;
        }
        let start: usize = n - 5;
        let mut i: usize = 0;
        while i < 5
            invariant
                n == path@.len(),
                n >= 5,
                start == n - 5,
                suffix@ == json_suffix(),
                i <= 5,
                forall|j: int| 0 <= j < i ==> path@[start + j] == json_suffix()[j],
            decreases 5 - i,
        {
            if path.get_char(start + i) != suffix.get_char(i) {
                proof {
                    let tail = path@.subrange(start as int, n as int);
                    assert(tail[i as int] != json_suffix()[i as int]);
                }
                return ConfigSyntax::Yaml;
            }
            i = i + 1;
        }
        assert(path@.subrange(start as int, n as int) =~= json_suffix());
        ConfigSyntax::Json
    }
}


/// The text `o` holds, or an empty text when it is absent.
fn string_or_empty(o: Option<String>) -> (r: String)
    ensures
        r@ == text_or_empty(o),
        o matches Some(t) ==> r == t,
{
    match o {
        Some(t) => t,
        None => String::new(),
    }
}

/// The list `o` holds, or an empty list when it is absent.
fn vec_or_empty<T>(o: Option<Vec<T>>) -> (r: Vec<T>)
    ensures
        o matches Some(v) ==> r == v,
        o is None ==> r@.len() == 0,
{
    match o {
        Some(v) => v,
        None => Vec::new(),
    }
}

impl LabelConfig {
    /// A label as a document writes it: an absent `from` becomes empty, and a
    /// written one is kept as it is.
    pub fn with_defaults(name: String, from: Option<String>) -> (r: LabelConfig)
        ensures
            r.name == name,
            r.from@ == text_or_empty(from),
            from matches Some(f) ==> r.from == f,
    {
        LabelConfig { name, from: string_or_empty(from) }
    }

    /// The event field the label's value comes from: `from` when it is set, else
    /// the label's own name.
    pub fn value_source(&self) -> (r: &String)
        ensures
            *r == (if self.from@.len() > 0 {
                self.from
            } else {
                self.name
            }),
    {
        if self.from.as_str().is_empty() {
            &self.name
        } else {
            &self.from
        }
    }
}

impl CounterConfig {
    /// A counter as a document writes it: an absent description becomes empty and
    /// absent labels an empty list; what is written is kept as it is.
    pub fn with_defaults(
        name: String,
        description: Option<String>,
        labels: Option<Vec<LabelConfig>>,
    ) -> (r: CounterConfig)
        ensures
            r.name == name,
            r.description@ == text_or_empty(description),
            description matches Some(d) ==> r.description == d,
            labels matches Some(l) ==> r.labels == l,
            labels is None ==> r.labels@.len() == 0,
    {
        CounterConfig {
            name,
            description: string_or_empty(description),
            labels: vec_or_empty(labels),
        }
    }
}

impl MetricsConfig {
    /// The metrics of a program as a document writes them: absent counters become
    /// an empty list.
    pub fn with_defaults(counters: Option<Vec<CounterConfig>>) -> (r: MetricsConfig)
        ensures
            counters matches Some(c) ==> r.counters == c,
            counters is None ==> r.counters@.len() == 0,
    {
        MetricsConfig { counters: vec_or_empty(counters) }
    }
}

impl ProgramConfig {
    /// A program as a document writes it: an absent inline payload or payload file
    /// becomes empty; what is written is kept as it is.
    pub fn with_defaults(
        name: String,
        metrics: MetricsConfig,
        ebpf_data: Option<String>,
        compiled_ebpf_filename: Option<String>,
    ) -> (r: ProgramConfig)
        ensures
            r.name == name,
            r.metrics == metrics,
            r.ebpf_data@ == text_or_empty(ebpf_data),
            ebpf_data matches Some(d) ==> r.ebpf_data == d,
            r.compiled_ebpf_filename@ == text_or_empty(compiled_ebpf_filename),
            compiled_ebpf_filename matches Some(f) ==> r.compiled_ebpf_filename == f,
    {
        ProgramConfig {
            name,
            metrics,
            ebpf_data: string_or_empty(ebpf_data),
            compiled_ebpf_filename: string_or_empty(compiled_ebpf_filename),
        }
    }
}

impl ExporterConfig {
    /// The next step of payload resolution, looking at the programs from index
    /// `from` on: `Ok(None)` when each of them has an inline payload, `Ok(Some(k))`
    /// when program `k` is the first without one and its payload file must be read,
    /// and an error naming that program when it has no payload file either. A
    /// program whose payload is inline is never chosen, whatever file it names.
    pub fn next_payload_read(&self, from: usize) -> (r: Result<Option<usize>, ConfigError>)
        ensures
            ({
                let progs = self.programs@;
                let k = first_pending(progs, from as int);
                &&& k == progs.len() ==> r == Ok::<Option<usize>, ConfigError>(None)
                &&& k < progs.len() && has_payload_file(progs[k]) ==> r == Ok::<
                    Option<usize>,
                    ConfigError,
                >(Some(k as usize))
                &&& k < progs.len() && !has_payload_file(progs[k]) ==> r == Err::<
                    Option<usize>,
                    ConfigError,
                >(ConfigError::UnresolvedPayload { program: progs[k].name })
            }),
    {
        let n = self.programs.len();
        let mut i: usize = from;
        while i < n
            invariant
                n == self.programs@.len(),
                from <= i,
                i < n ==> first_pending(self.programs@, from as int) == first_pending(
                    self.programs@,
                    i as int,
                ),
                i >= n ==> first_pending(self.programs@, from as int) == n,
            decreases n - i,
        {
            let prog = &self.programs[i];
            if prog.ebpf_data.as_str().is_empty() {
                if prog.compiled_ebpf_filename.as_str().is_empty() {
                    return Err(ConfigError::UnresolvedPayload { program: prog.name.clone() });
                }
                return Ok(Some(i));
            }
            proof {
                let next = i + 1;
                assert(first_pending(self.programs@, i as int) == first_pending(
                    self.programs@,
                    next,
                ));
                assert(next >= n ==> first_pending(self.programs@, next) == n);
            }
            i = i + 1;
        }
        Ok(None)
    }

    /// Stores `contents`, read from its payload file, as the inline payload of
    /// program `index`; nothing else changes. Returns the index from which
    /// resolution goes on.
    pub fn fill_payload(&mut self, index: usize, contents: String) -> (next: usize)
        requires
            index < old(self).programs@.len(),
        ensures
            next == index + 1,
            final(self).programs@.len() == old(self).programs@.len(),
            final(self).programs@[index as int] == (ProgramConfig {
                ebpf_data: contents,
                ..old(self).programs@[index as int]
            }),
            forall|j: int|
                0 <= j < old(self).programs@.len() && j != index ==> final(self).programs@[j]
                    == old(self).programs@[j],
    {
        let n = self.programs.len();
        let next = index + 1;
        assert(next <= n);
        let mut prog = self.programs.remove(index);
        prog.ebpf_data = contents;
        self.programs.insert(index, prog);
        next
    }
}

} // verus!
