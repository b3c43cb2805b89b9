use vstd::prelude::*;
use crate::platform::{same_text, text};
use vstd::string::StrSliceExecFns;

verus! {

/// What the caller asks of a provisioning.
pub struct AgentConfig {
    pub backend_url: String,
    pub agent_name: String,
    /// The window in which the machine should stay awake; empty for none.
    pub compute_hours: String,
    pub auto_start: bool,
    pub gpu_enabled: bool,
}

pub ghost struct ConfigView {
    pub backend_url: Seq<char>,
    pub agent_name: Seq<char>,
    pub compute_hours: Seq<char>,
    pub auto_start: bool,
    pub gpu_enabled: bool,
}

impl View for AgentConfig {
    type V = ConfigView;

    open spec fn view(&self) -> ConfigView {
        ConfigView {
            backend_url: self.backend_url@,
            agent_name: self.agent_name@,
            compute_hours: self.compute_hours@,
            auto_start: self.auto_start,
            gpu_enabled: self.gpu_enabled,
        }
    }
}

pub open spec fn bool_text(b: bool) -> Seq<char> {
    if b {
        "true"@
    } else {
        "false"@
    }
}

pub open spec fn config_line(key: Seq<char>, value: Seq<char>) -> Seq<char> {
    key + "="@ + value + "\n"@
}

/// The configuration artifact: one `KEY=VALUE` line per field, after an
/// empty first line.
pub open spec fn config_text(c: ConfigView) -> Seq<char> {
    "\n"@ + config_line("BACKEND_URL"@, c.backend_url) + config_line("AGENT_NAME"@, c.agent_name)
        + config_line("COMPUTE_HOURS"@, c.compute_hours) + config_line(
        "AUTO_START"@,
        bool_text(c.auto_start),
    ) + config_line("GPU_ENABLED"@, bool_text(c.gpu_enabled))
}

fn append_line(t: &mut String, key: &str, value: &str)
    ensures
        final(t)@ == old(t)@ + config_line(key@, value@),
{
    t.append(key);
    t.append("=");
    t.append(value);
    t.append("\n");
    assert(final(t)@ =~= old(t)@ + config_line(key@, value@));
}

fn bool_str(b: bool) -> (r: &'static str)
    ensures
        r@ == bool_text(b),
{
    if b {
        "true"
    } else {
        "false"
    }
}

/// Renders `config` as the configuration artifact. A configuration without
/// a backend URL is refused.
pub fn create_agent_config(config: &AgentConfig) -> (r: Result<String, String>)
    ensures
        config.backend_url@.len() == 0 <==> r is Err,
        r matches Ok(t) ==> t@ == config_text(config@),
        r matches Err(e) ==> e@ == "Backend URL is required"@,
{
    if config.backend_url.as_str().is_empty() {
        return Err(text("Backend URL is required"));
    }
    let mut t = text("\n");
    append_line(&mut t, "BACKEND_URL", config.backend_url.as_str());
    append_line(&mut t, "AGENT_NAME", config.agent_name.as_str());
    append_line(&mut t, "COMPUTE_HOURS", config.compute_hours.as_str());
    append_line(&mut t, "AUTO_START", bool_str(config.auto_start));
    append_line(&mut t, "GPU_ENABLED", bool_str(config.gpu_enabled));
    Ok(t)
}

/// Reading state of the artifact: the key and value of the current line so
/// far, whether its `=` has been seen, and the entries of finished lines.
pub ghost struct Scan {
    pub key: Seq<char>,
    pub value: Seq<char>,
    pub in_value: bool,
    pub entries: Seq<(Seq<char>, Seq<char>)>,
}

pub open spec fn scan_start() -> Scan {
    Scan { key: Seq::empty(), value: Seq::empty(), in_value: false, entries: Seq::empty() }
}

/// A line break ends the line and keeps it as an entry when it had an `=`;
/// the first `=` splits key from value; a line without `=` is dropped.
pub open spec fn scan_char(st: Scan, c: char) -> Scan {
    if c == '\n' {
        Scan {
            key: Seq::empty(),
            value: Seq::empty(),
            in_value: false,
            entries: if st.in_value {
                st.entries.push((st.key, st.value))
            } else {
                st.entries
            },
        }
    } else if st.in_value {
        Scan { value: st.value.push(c), ..st }
    } else if c == '=' {
        Scan { in_value: true, ..st }
    } else {
        Scan { key: st.key.push(c), ..st }
    }
}

pub open spec fn scan_from(st: Scan, s: Seq<char>) -> Scan
    decreases s.len(),
{
    if s.len() == 0 {
        st
    } else {
        scan_char(scan_from(st, s.drop_last()), s.last())
    }
}

/// The `KEY=VALUE` entries of a text, in order; a last line without a line
/// break counts too.
pub open spec fn config_entries(s: Seq<char>) -> Seq<(Seq<char>, Seq<char>)> {
    let st = scan_from(scan_start(), s);
    if st.in_value {
        st.entries.push((st.key, st.value))
    } else {
        st.entries
    }
}

/// The value of the first entry with `key`.
pub open spec fn lookup(entries: Seq<(Seq<char>, Seq<char>)>, key: Seq<char>) -> Option<Seq<char>>
    decreases entries.len(),
{
    if entries.len() == 0 {
        None
    } else if entries[0].0 == key {
        Some(entries[0].1)
    } else {
        lookup(entries.drop_first(), key)
    }
}

pub open spec fn parse_bool(v: Seq<char>) -> Option<bool> {
    if v == "true"@ {
        Some(true)
    } else if v == "false"@ {
        Some(false)
    } else {
        None
    }
}

/// The configuration that a text holds: all five keys must be present and
/// both flags must read `true` or `false`.
pub open spec fn parse_config(s: Seq<char>) -> Option<ConfigView> {
    let e = config_entries(s);
    let url = lookup(e, "BACKEND_URL"@);
    let name = lookup(e, "AGENT_NAME"@);
    let hours = lookup(e, "COMPUTE_HOURS"@);
    let auto = lookup(e, "AUTO_START"@);
    let gpu = lookup(e, "GPU_ENABLED"@);
    if url is Some && name is Some && hours is Some && auto is Some && gpu is Some && parse_bool(
        auto.unwrap(),
    ) is Some && parse_bool(gpu.unwrap()) is Some {
        Some(
            ConfigView {
                backend_url: url.unwrap(),
                agent_name: name.unwrap(),
                compute_hours: hours.unwrap(),
                auto_start: parse_bool(auto.unwrap()).unwrap(),
                gpu_enabled: parse_bool(gpu.unwrap()).unwrap(),
            },
        )
    } else {
        None
    }
}

/// No line break in `s`.
pub open spec fn single_line(s: Seq<char>) -> bool {
    forall|i: int| 0 <= i < s.len() ==> s[i] != '\n'
}

/// Neither a line break nor `=` in `s`.
pub open spec fn plain_key(s: Seq<char>) -> bool {
    forall|i: int| 0 <= i < s.len() ==> s[i] != '\n' && s[i] != '='
}

proof fn lemma_scan_append(st: Scan, a: Seq<char>, b: Seq<char>)
    ensures
        scan_from(st, a + b) == scan_from(scan_from(st, a), b),
    decreases b.len(),
{
    if b.len() == 0 {
        assert(a + b =~= a);
    } else {
        assert((a + b).drop_last() =~= a + b.drop_last());
        assert((a + b).last() == b.last());
        lemma_scan_append(st, a, b.drop_last());
    }
}

proof fn lemma_scan_key(st: Scan, k: Seq<char>)
    requires
        !st.in_value,
        plain_key(k),
    ensures
        scan_from(st, k) == (Scan { key: st.key + k, ..st }),
    decreases k.len(),
{
    if k.len() == 0 {
        assert(st.key + k =~= st.key);
    } else {
        lemma_scan_key(st, k.drop_last());
        assert(st.key + k =~= (st.key + k.drop_last()).push(k.last()));
    }
}

proof fn lemma_scan_value(st: Scan, v: Seq<char>)
    requires
        st.in_value,
        single_line(v),
    ensures
        scan_from(st, v) == (Scan { value: st.value + v, ..st }),
    decreases v.len(),
{
    if v.len() == 0 {
        assert(st.value + v =~= st.value);
    } else {
        lemma_scan_value(st, v.drop_last());
        assert(st.value + v =~= (st.value + v.drop_last()).push(v.last()));
    }
}

proof fn lemma_scan_one(st: Scan, c: char)
    ensures
        scan_from(st, seq![c]) == scan_char(st, c),
{
    reveal_with_fuel(scan_from, 2);
    assert(seq![c].drop_last() =~= Seq::<char>::empty());
}

proof fn lemma_scan_line(st: Scan, k: Seq<char>, v: Seq<char>)
    requires
        !st.in_value,
        st.key.len() == 0,
        st.value.len() == 0,
        plain_key(k),
        single_line(v),
    ensures
        scan_from(st, config_line(k, v)) == (Scan { entries: st.entries.push((k, v)), ..st }),
{
    reveal_strlit("=");
    reveal_strlit("\n");
    assert("="@ =~= seq!['=']);
    assert("\n"@ =~= seq!['\n']);
    lemma_scan_append(st, k + "="@ + v, "\n"@);
    lemma_scan_append(st, k + "="@, v);
    lemma_scan_append(st, k, "="@);
    lemma_scan_key(st, k);
    let s1 = Scan { key: st.key + k, ..st };
    lemma_scan_one(s1, '=');
    let s2 = Scan { in_value: true, ..s1 };
    lemma_scan_value(s2, v);
    let s3 = Scan { value: s2.value + v, ..s2 };
    lemma_scan_one(s3, '\n');
    assert(st.key + k =~= k);
    assert(st.value + v =~= v);
    assert(st.key =~= Seq::<char>::empty());
    assert(st.value =~= Seq::<char>::empty());
}

proof fn lemma_keys()
    ensures
        plain_key("BACKEND_URL"@),
        plain_key("AGENT_NAME"@),
        plain_key("COMPUTE_HOURS"@),
        plain_key("AUTO_START"@),
        plain_key("GPU_ENABLED"@),
        "BACKEND_URL"@ != "AGENT_NAME"@,
        "BACKEND_URL"@ != "COMPUTE_HOURS"@,
        "BACKEND_URL"@ != "AUTO_START"@,
        "BACKEND_URL"@ != "GPU_ENABLED"@,
        "AGENT_NAME"@ != "COMPUTE_HOURS"@,
        "AGENT_NAME"@ != "AUTO_START"@,
        "AGENT_NAME"@ != "GPU_ENABLED"@,
        "COMPUTE_HOURS"@ != "AUTO_START"@,
        "COMPUTE_HOURS"@ != "GPU_ENABLED"@,
        "AUTO_START"@ != "GPU_ENABLED"@,
{
    reveal_strlit("BACKEND_URL");
    reveal_strlit("AGENT_NAME");
    reveal_strlit("COMPUTE_HOURS");
    reveal_strlit("AUTO_START");
    reveal_strlit("GPU_ENABLED");
    assert("AGENT_NAME"@[1] != "AUTO_START"@[1]);
    assert("BACKEND_URL"@[0] != "GPU_ENABLED"@[0]);
}

proof fn lemma_bool_text(b: bool)
    ensures
        parse_bool(bool_text(b)) == Some(b),
        single_line(bool_text(b)),
{
    reveal_strlit("true");
    reveal_strlit("false");
    assert("true"@.len() != "false"@.len());
}

/// Reading back the configuration artifact of a configuration gives the
/// same five field values, for every configuration whose text fields hold
/// no line break.
pub proof fn lemma_config_round_trip(c: ConfigView)
    requires
        single_line(c.backend_url),
        single_line(c.agent_name),
        single_line(c.compute_hours),
    ensures
        parse_config(config_text(c)) == Some(c),
{
    lemma_keys();
    lemma_bool_text(c.auto_start);
    lemma_bool_text(c.gpu_enabled);
    let l1 = config_line("BACKEND_URL"@, c.backend_url);
    let l2 = config_line("AGENT_NAME"@, c.agent_name);
    let l3 = config_line("COMPUTE_HOURS"@, c.compute_hours);
    let l4 = config_line("AUTO_START"@, bool_text(c.auto_start));
    let l5 = config_line("GPU_ENABLED"@, bool_text(c.gpu_enabled));
    let st0 = scan_start();
    reveal_strlit("\n");
    assert("\n"@ =~= seq!['\n']);
    lemma_scan_one(st0, '\n');
    assert(scan_char(st0, '\n') == st0);
    let e1 = st0.entries.push(("BACKEND_URL"@, c.backend_url));
    let e2 = e1.push(("AGENT_NAME"@, c.agent_name));
    let e3 = e2.push(("COMPUTE_HOURS"@, c.compute_hours));
    let e4 = e3.push(("AUTO_START"@, bool_text(c.auto_start)));
    let e5 = e4.push(("GPU_ENABLED"@, bool_text(c.gpu_enabled)));
    lemma_scan_append(st0, "\n"@, l1);
    lemma_scan_line(st0, "BACKEND_URL"@, c.backend_url);
    let s1 = Scan { entries: e1, ..st0 };
    lemma_scan_append(st0, "\n"@ + l1, l2);
    lemma_scan_line(s1, "AGENT_NAME"@, c.agent_name);
    let s2 = Scan { entries: e2, ..st0 };
    lemma_scan_append(st0, "\n"@ + l1 + l2, l3);
    lemma_scan_line(s2, "COMPUTE_HOURS"@, c.compute_hours);
    let s3 = Scan { entries: e3, ..st0 };
    lemma_scan_append(st0, "\n"@ + l1 + l2 + l3, l4);
    lemma_scan_line(s3, "AUTO_START"@, bool_text(c.auto_start));
    let s4 = Scan { entries: e4, ..st0 };
    lemma_scan_append(st0, "\n"@ + l1 + l2 + l3 + l4, l5);
    lemma_scan_line(s4, "GPU_ENABLED"@, bool_text(c.gpu_enabled));
    assert(config_entries(config_text(c)) == e5);
    reveal_with_fuel(lookup, 6);
    assert(e5.drop_first() =~= seq![
        ("AGENT_NAME"@, c.agent_name),
        ("COMPUTE_HOURS"@, c.compute_hours),
        ("AUTO_START"@, bool_text(c.auto_start)),
        ("GPU_ENABLED"@, bool_text(c.gpu_enabled)),
    ]);
    assert(e5.drop_first().drop_first() =~= seq![
        ("COMPUTE_HOURS"@, c.compute_hours),
        ("AUTO_START"@, bool_text(c.auto_start)),
        ("GPU_ENABLED"@, bool_text(c.gpu_enabled)),
    ]);
    assert(e5.drop_first().drop_first().drop_first() =~= seq![
        ("AUTO_START"@, bool_text(c.auto_start)),
        ("GPU_ENABLED"@, bool_text(c.gpu_enabled)),
    ]);
    assert(e5.drop_first().drop_first().drop_first().drop_first() =~= seq![
        ("GPU_ENABLED"@, bool_text(c.gpu_enabled)),
    ]);
}

pub open spec fn entries_view(v: Seq<(String, String)>) -> Seq<(Seq<char>, Seq<char>)> {
    v.map_values(|p: (String, String)| (p.0@, p.1@))
}

pub open spec fn scan_prefix(t: Seq<char>, i: int) -> Scan {
    scan_from(scan_start(), t.take(i))
}

pub open spec fn text_opt(o: Option<String>) -> Option<Seq<char>> {
    match o {
        Some(s) => Some(s@),
        None => None,
    }
}

/// The `KEY=VALUE` entries of `t`, in order.
pub fn read_entries(t: &str) -> (r: Vec<(String, String)>)
    ensures
        entries_view(r@) == config_entries(t@),
{
    let n = t.unicode_len();
    let mut i: usize = 0;
    let mut line_start: usize = 0;
    let mut eq: Option<usize> = None;
    let mut entries: Vec<(String, String)> = Vec::new();
    assert(t@.take(0) =~= Seq::<char>::empty());
    assert(entries_view(entries@) =~= Seq::empty());
    while i < n
        invariant
            n == t@.len(),
            line_start <= i <= n,
            scan_prefix(t@, i as int).in_value == eq is Some,
            eq is None ==> scan_prefix(t@, i as int).key == t@.subrange(line_start as int, i as int),
            eq is None ==> scan_prefix(t@, i as int).value == Seq::<char>::empty(),
            eq matches Some(e) ==> {
                &&& line_start <= e < i
                &&& scan_prefix(t@, i as int).key == t@.subrange(line_start as int, e as int)
                &&& scan_prefix(t@, i as int).value == t@.subrange(e + 1, i as int)
            },
            entries_view(entries@) == scan_prefix(t@, i as int).entries,
        decreases n - i,
    {
        let c = t.get_char(i);
        let ghost before = scan_prefix(t@, i as int);
        assert(t@.take(i + 1).drop_last() =~= t@.take(i as int));
        assert(scan_prefix(t@, i + 1) == scan_char(before, c));
        if c == '\n' {
            match eq {
                Some(e) => {
                    let k = text(t.substring_char(line_start, e));
                    let v = text(t.substring_char(e + 1, i));
                    let ghost old_entries = entries@;
                    entries.push((k, v));
                    assert(entries_view(entries@) =~= entries_view(old_entries).push((k@, v@)));
                },
                None => {},
            }
            eq = None;
            line_start = i + 1;
            assert(t@.subrange(line_start as int, i + 1) =~= Seq::<char>::empty());
        } else {
            match eq {
                Some(e) => {
                    assert(t@.subrange(e + 1, i + 1) =~= t@.subrange(e + 1, i as int).push(c));
                },
                None => {
                    if c == '=' {
                        eq = Some(i);
                        assert(t@.subrange(i + 1, i + 1) =~= Seq::<char>::empty());
                    } else {
                        assert(t@.subrange(line_start as int, i + 1) =~= t@.subrange(
                            line_start as int,
                            i as int,
                        ).push(c));
                    }
                },
            }
        }
        i = i + 1;
    }
    assert(t@.take(n as int) =~= t@);
    match eq {
        Some(e) => {
            let k = text(t.substring_char(line_start, e));
            let v = text(t.substring_char(e + 1, n));
            let ghost old_entries = entries@;
            entries.push((k, v));
            assert(entries_view(entries@) =~= entries_view(old_entries).push((k@, v@)));
        },
        None => {},
    }
    entries
}

/// The value of the first entry with `key`.
pub fn find_value(entries: &Vec<(String, String)>, key: &str) -> (r: Option<String>)
    ensures
        text_opt(r) == lookup(entries_view(entries@), key@),
{
    let ghost ev = entries_view(entries@);
    let mut i: usize = 0;
    assert(ev.subrange(0, ev.len() as int) =~= ev);
    while i < entries.len()
        invariant
            ev == entries_view(entries@),
            i <= entries.len(),
            lookup(ev, key@) == lookup(ev.subrange(i as int, ev.len() as int), key@),
        decreases entries.len() - i,
    {
        let ghost rest = ev.subrange(i as int, ev.len() as int);
        assert(rest[0] == ev[i as int]);
        if same_text(entries[i].0.as_str(), key) {
            return Some(entries[i].1.clone());
        }
        assert(rest.drop_first() =~= ev.subrange(i + 1, ev.len() as int));
        i = i + 1;
    }
    None
}

fn read_bool(v: &str) -> (r: Option<bool>)
    ensures
        r == parse_bool(v@),
{
    if same_text(v, "true") {
        Some(true)
    } else if same_text(v, "false") {
        Some(false)
    } else {
        None
    }
}

/// Reads a configuration artifact back into a configuration.
pub fn parse_agent_config(t: &str) -> (r: Option<AgentConfig>)
    ensures
        match r {
            Some(c) => parse_config(t@) == Some(c@),
            None => parse_config(t@) is None,
        },
{
    let e = read_entries(t);
    let url = find_value(&e, "BACKEND_URL");
    let name = find_value(&e, "AGENT_NAME");
    let hours = find_value(&e, "COMPUTE_HOURS");
    let auto = find_value(&e, "AUTO_START");
    let gpu = find_value(&e, "GPU_ENABLED");
    match (url, name, hours, auto, gpu) {
        (Some(url), Some(name), Some(hours), Some(auto), Some(gpu)) => {
            match (read_bool(auto.as_str()), read_bool(gpu.as_str())) {
                (Some(a), Some(g)) => Some(
                    AgentConfig {
                        backend_url: url,
                        agent_name: name,
                        compute_hours: hours,
                        auto_start: a,
                        gpu_enabled: g,
                    },
                ),
                _ => None,
            }
        },
        _ => None,
    }
}

} // verus!
