//! Substring search over character sequences, and the HTML rewrite that
//! inserts the audio-initialization script block before the first `</head>`
//! marker of a served HTML document.

use vstd::prelude::*;
use vstd::string::StrSliceExecFns;
use vstd::string::StringExecFns;

verus! {

/// The pattern `pat` occurs in `s` starting at character index `i`.
pub open spec fn occurs_at(s: Seq<char>, pat: Seq<char>, i: int) -> bool {
    &&& 0 <= i
    &&& i + pat.len() <= s.len()
    &&& s.subrange(i, i + pat.len() as int) == pat
}

/// Index of the first occurrence of `pat` in `s` at or after index `i`,
/// or `None` if there is none. An empty pattern is found at index 0.
pub open spec fn find_from(s: Seq<char>, pat: Seq<char>, i: int) -> Option<int>
    decreases s.len() - i,
{
    if pat.len() == 0 {
        Some(0)
    } else if i < 0 || i + pat.len() > s.len() {
        None
    } else if occurs_at(s, pat, i) {
        Some(i)
    } else {
        find_from(s, pat, i + 1)
    }
}

/// Index of the first occurrence of `pat` in `s`, or `None` if `pat` does not
/// occur in `s`.
pub open spec fn find_first(s: Seq<char>, pat: Seq<char>) -> Option<int> {
    find_from(s, pat, 0)
}

/// `pat` occurs somewhere in `s`.
pub open spec fn contains_seq(s: Seq<char>, pat: Seq<char>) -> bool {
    find_first(s, pat) is Some
}

/// First-occurrence substring search, the executable counterpart of
/// `find_first`.
pub fn find_substr(s: &str, pat: &str) -> (r: Option<usize>)
    ensures
        match r {
            Some(i) => find_first(s@, pat@) == Some(i as int),
            None => find_first(s@, pat@) is None,
        },
{
    let n = s.unicode_len();
    let m = pat.unicode_len();
    if m == 0 {
        return Some(0);
    }
    if m > n {
        return None;
    }
    let mut i: usize = 0;
    while i <= n - m
        invariant
            1 <= m <= n,
            i <= n - m + 1,
            n == s@.len(),
            m == pat@.len(),
            find_first(s@, pat@) == find_from(s@, pat@, i as int),
        decreases n - m + 1 - i,
    {
        let mut j: usize = 0;
        while j < m && s.get_char(i + j) == pat.get_char(j)
            invariant
                1 <= m <= n,
                i <= n - m,
                j <= m,
                n == s@.len(),
                m == pat@.len(),
                forall|k: int| 0 <= k < j ==> s@[i + k] == pat@[k],
            decreases m - j,
        {
            j = j + 1;
        }
        if j == m {
            proof {
                let sub = s@.subrange(i as int, i + m as int);
                assert forall|k: int| 0 <= k < m implies sub[k] == pat@[k] by {
                    assert(sub[k] == s@[i + k]);
                }
                assert(sub =~= pat@);
                assert(occurs_at(s@, pat@, i as int));
            }
            return Some(i);
        }
        proof {
            assert(!occurs_at(s@, pat@, i as int)) by {
                if occurs_at(s@, pat@, i as int) {
                    let sub = s@.subrange(i as int, i + m as int);
                    assert(sub[j as int] == s@[i + j]);
                }
            }
            assert(find_from(s@, pat@, i as int) == find_from(s@, pat@, i as int + 1));
        }
        i = i + 1;
    }
    proof {
        assert(find_from(s@, pat@, i as int) is None);
    }
    None
}

/// The fixed audio-initialization script block inserted before `</head>`.
/// Kept as a single constant so its exact content is a stable artifact.
pub const AUDIO_SCRIPT: &'static str = r#"
    <script type="module">
    (() => {
        // configuration
        const config = {
            debug: true,
            defaultMode: 'worklet',
            fallbackTimeout: 1500,
            godot4Selector: '#godot-canvas',
            godot3Selector: 'body'
        };

        // read settings from the URL parameters
        const params = new URLSearchParams(location.search);
        const forceMode = params.get('audio');
        const useWorklet = forceMode
            ? forceMode === 'worklet'
            : config.defaultMode === 'worklet';

        // performance marks
        const perfMark = (name) => config.debug && performance.mark(`audio_${name}`);

        // set up the audio context
        const initAudio = () => {
            perfMark('init_start');

            const audio = document.createElement('audio');
            audio.setAttribute('context', useWorklet ? 'worklet' : 'scriptprocessor');

            // detect the engine version by its mount point
            const mountPoint = document.querySelector(config.godot4Selector)
                || document.querySelector(config.godot3Selector);

            if (mountPoint) {
                mountPoint.appendChild(audio);

                // fall back when the worklet fails
                if (useWorklet) {
                    audio.onerror = () => {
                        console.warn('[Audio] Worklet failed, falling back');
                        location.search = '?audio=legacy';
                    };
                }

                perfMark('init_end');
                if (config.debug) {
                    const measure = performance.measure(
                        'audio_init',
                        'audio_init_start',
                        'audio_init_end'
                    );
                    console.log(`[Audio] Initialized in ${measure.duration.toFixed(2)}ms`);
                }
            }
        };

        // delay startup so the page load is not blocked
        setTimeout(initAudio, config.fallbackTimeout);

        // engine load event
        if (typeof Engine !== 'undefined') {
            Engine.on('started', () => {
                console.log('[Audio] Godot engine ready');
                initAudio();
            });
        }
    })();
    </script>
    "#;

/// The marker comment that asks for the extra diagnostic script.
pub const DEV_MARKER: &'static str = "<!--DEVMODE-->";

/// The diagnostic script inserted when the document holds `DEV_MARKER`.
pub const DEV_SCRIPT: &'static str = r#"<script>console.log('[Dev] Audio script injected');</script>"#;

/// The marker before which the script block is inserted.
pub const HEAD_CLOSE: &'static str = "</head>";

/// What the rewrite produces from the text `s`: if `</head>` does not occur,
/// `s` unchanged; otherwise `s` with the diagnostic script (only when the
/// original text holds the developer marker) and the audio script inserted
/// immediately before the first occurrence of `</head>`.
pub open spec fn inject_spec(s: Seq<char>) -> Seq<char> {
    match find_first(s, HEAD_CLOSE@) {
        None => s,
        Some(i) => s.subrange(0, i) + (if contains_seq(s, DEV_MARKER@) {
            DEV_SCRIPT@
        } else {
            Seq::<char>::empty()
        }) + AUDIO_SCRIPT@ + s.subrange(i, s.len() as int),
    }
}

/// Insert the audio-initialization script block before the first `</head>`
/// of `html`, plus the diagnostic script when the developer marker is
/// present; leave `html` unchanged when `</head>` does not occur. The query
/// string is not consulted: the injected script reads the browser URL itself.
pub fn inject_audio_script(html: &mut String, _query_params: &str)
    ensures
        final(html)@ == inject_spec(old(html)@),
{
    let found = find_substr(html.as_str(), HEAD_CLOSE);
    match found {
        None => {
        },
        Some(pos) => {
            let has_dev = find_substr(html.as_str(), DEV_MARKER).is_some();
            let n = html.as_str().unicode_len();
            proof {
                reveal_strlit("</head>");
                assert(occurs_at(html@, HEAD_CLOSE@, pos as int)) by {
                    lemma_find_from_occurs(html@, HEAD_CLOSE@, 0, pos as int);
                }
            }
            let prefix = html.as_str().substring_char(0, pos).to_owned();
            let suffix = html.as_str().substring_char(pos, n).to_owned();
            let mut out = prefix;
            if has_dev {
                out.append(DEV_SCRIPT);
            }
            out.append(AUDIO_SCRIPT);
            out.append(suffix.as_str());
            proof {
                if !has_dev {
                    assert(old(html)@.subrange(0, pos as int) + Seq::<char>::empty()
                        =~= old(html)@.subrange(0, pos as int));
                }
            }
            *html = out;
        },
    }
}

/// A `Some` result of `find_from` is an occurrence.
pub proof fn lemma_find_from_occurs(s: Seq<char>, pat: Seq<char>, i: int, j: int)
    requires
        pat.len() > 0,
        find_from(s, pat, i) == Some(j),
    ensures
        occurs_at(s, pat, j),
    decreases s.len() - i,
{
    if i < 0 || i + pat.len() > s.len() {
    } else if occurs_at(s, pat, i) {
    } else {
        lemma_find_from_occurs(s, pat, i + 1, j);
    }
}

/// A `Some` result of `find_from` is the least occurrence at or after `i`.
pub proof fn lemma_find_from_least(s: Seq<char>, pat: Seq<char>, i: int, j: int)
    requires
        pat.len() > 0,
        find_from(s, pat, i) == Some(j),
    ensures
        i <= j,
        forall|k: int| i <= k < j ==> !occurs_at(s, pat, k),
    decreases s.len() - i,
{
    if i < 0 || i + pat.len() > s.len() {
    } else if occurs_at(s, pat, i) {
    } else {
        lemma_find_from_least(s, pat, i + 1, j);
    }
}

/// Where `</head>` occurs in a text, the rewrite keeps the text around its
/// first occurrence byte for byte and inserts the script block — preceded by
/// the diagnostic script exactly where the text holds the developer marker —
/// immediately before that occurrence.
pub proof fn lemma_injection_structure(s: Seq<char>, i: int)
    requires
        find_first(s, HEAD_CLOSE@) == Some(i),
    ensures
        occurs_at(s, HEAD_CLOSE@, i),
        forall|k: int| 0 <= k < i ==> !occurs_at(s, HEAD_CLOSE@, k),
        !contains_seq(s, DEV_MARKER@) ==> inject_spec(s) == s.subrange(0, i) + AUDIO_SCRIPT@
            + s.subrange(i, s.len() as int),
        contains_seq(s, DEV_MARKER@) ==> inject_spec(s) == s.subrange(0, i) + DEV_SCRIPT@
            + AUDIO_SCRIPT@ + s.subrange(i, s.len() as int),
{
    reveal_strlit("</head>");
    lemma_find_from_occurs(s, HEAD_CLOSE@, 0, i);
    lemma_find_from_least(s, HEAD_CLOSE@, 0, i);
    if !contains_seq(s, DEV_MARKER@) {
        assert(s.subrange(0, i) + Seq::<char>::empty() =~= s.subrange(0, i));
    }
}

/// A text in which `</head>` does not occur is left unchanged by the
/// rewrite.
pub proof fn lemma_no_head_close_no_rewrite(s: Seq<char>)
    requires
        !contains_seq(s, HEAD_CLOSE@),
    ensures
        inject_spec(s) == s,
{
}

} // verus!
