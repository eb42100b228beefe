//! The capture session: the artifacts captured so far and which one is
//! active.

use vstd::prelude::*;
use vstd::string::StringExecFns;

use crate::strings::str_eq;

verus! {

/// One finished capture.
#[derive(Debug)]
pub struct CaptureArtifact {
    pub capture_id: String,
    pub temp_path: String,
    pub width: u32,
    pub height: u32,
    pub screen_x: i32,
    pub screen_y: i32,
    pub screen_width: u32,
    pub screen_height: u32,
    pub created_at: u64,
}

/// Artifact equality up to the abstract content of its strings.
pub open spec fn spec_artifact_eq(a: CaptureArtifact, b: CaptureArtifact) -> bool {
    &&& a.capture_id@ == b.capture_id@
    &&& a.temp_path@ == b.temp_path@
    &&& a.width == b.width && a.height == b.height
    &&& a.screen_x == b.screen_x && a.screen_y == b.screen_y
    &&& a.screen_width == b.screen_width && a.screen_height == b.screen_height
    &&& a.created_at == b.created_at
}

impl Clone for CaptureArtifact {
    fn clone(&self) -> (r: Self)
        ensures
            spec_artifact_eq(r, *self),
    {
        CaptureArtifact {
            capture_id: self.capture_id.clone(),
            temp_path: self.temp_path.clone(),
            width: self.width,
            height: self.height,
            screen_x: self.screen_x,
            screen_y: self.screen_y,
            screen_width: self.screen_width,
            screen_height: self.screen_height,
            created_at: self.created_at,
        }
    }
}

/// Whether some artifact in `s` carries the id `id`.
pub open spec fn spec_has_capture(s: Seq<CaptureArtifact>, id: Seq<char>) -> bool {
    exists|i: int| 0 <= i < s.len() && (#[trigger] s[i]).capture_id@ == id
}

/// The artifacts of `s` whose id is not `id`, in order.
pub open spec fn spec_without_capture(s: Seq<CaptureArtifact>, id: Seq<char>) -> Seq<
    CaptureArtifact,
>
    decreases s.len(),
{
    if s.len() == 0 {
        Seq::empty()
    } else {
        spec_without_capture(s.drop_last(), id) + if s.last().capture_id@ == id {
            Seq::empty()
        } else {
            seq![s.last()]
        }
    }
}

/// The index of the first artifact with id `id`, or `s.len()` when absent.
pub open spec fn spec_find_capture(s: Seq<CaptureArtifact>, id: Seq<char>) -> int
    decreases s.len(),
{
    if s.len() == 0 {
        0
    } else if s[0].capture_id@ == id {
        0
    } else {
        1 + spec_find_capture(s.drop_first(), id)
    }
}

proof fn lemma_find_capture(s: Seq<CaptureArtifact>, id: Seq<char>)
    ensures
        0 <= spec_find_capture(s, id) <= s.len(),
        spec_find_capture(s, id) < s.len() ==> s[spec_find_capture(s, id)].capture_id@ == id,
        forall|j: int| 0 <= j < spec_find_capture(s, id) ==> (#[trigger] s[j]).capture_id@ != id,
        spec_has_capture(s, id) <==> spec_find_capture(s, id) < s.len(),
    decreases s.len(),
{
    if s.len() > 0 && s[0].capture_id@ != id {
        let t = s.drop_first();
        lemma_find_capture(t, id);
        let f = spec_find_capture(s, id);
        if f < s.len() {
            assert(t[f - 1] == s[f]);
        }
        assert forall|j: int| 0 <= j < f implies (#[trigger] s[j]).capture_id@ != id by {
            if j > 0 {
                assert(t[j - 1] == s[j]);
            }
        }
        if spec_has_capture(s, id) {
            let w = choose|i: int| 0 <= i < s.len() && (#[trigger] s[i]).capture_id@ == id;
            assert(t[w - 1] == s[w]);
            assert(spec_has_capture(t, id));
        }
        if spec_has_capture(t, id) {
            let w = choose|i: int| 0 <= i < t.len() && (#[trigger] t[i]).capture_id@ == id;
            assert(s[w + 1] == t[w]);
            assert(spec_has_capture(s, id));
        }
    }
}

/// The captures of one session, newest last, with the active capture
/// tracked by id.
#[derive(Debug)]
pub struct RuntimeSession {
    pub captures: Vec<CaptureArtifact>,
    pub active_capture_id: Option<String>,
}

impl Default for RuntimeSession {
    fn default() -> (r: Self)
        ensures
            r.captures@ == Seq::<CaptureArtifact>::empty(),
            r.active_capture_id is None,
    {
        RuntimeSession { captures: Vec::new(), active_capture_id: None }
    }
}

impl RuntimeSession {
    /// Record a capture: any older artifact with the same id is dropped, the
    /// new one appended, and it becomes the active capture.
    pub fn push_capture(&mut self, artifact: CaptureArtifact)
        ensures
            ({
                let kept = spec_without_capture(old(self).captures@, artifact.capture_id@);
                &&& final(self).captures@.len() == kept.len() + 1
                &&& forall|i: int|
                    0 <= i < kept.len() ==> spec_artifact_eq(
                        #[trigger] final(self).captures@[i],
                        kept[i],
                    )
            }),
            final(self).captures@.len() > 0,
            spec_artifact_eq(final(self).captures@.last(), artifact),
            final(self).active_capture_id matches Some(a) && a@ == artifact.capture_id@,
    {
        let mut kept: Vec<CaptureArtifact> = Vec::new();
        let n = self.captures.len();
        let mut i: usize = 0;
        while i < n
            invariant
                n == self.captures@.len(),
                i <= n,
                ({
                    let w = spec_without_capture(
                        self.captures@.subrange(0, i as int),
                        artifact.capture_id@,
                    );
                    kept@.len() == w.len() && forall|j: int|
                        0 <= j < w.len() ==> spec_artifact_eq(#[trigger] kept@[j], w[j])
                }),
            decreases n - i,
        {
            if !str_eq(self.captures[i].capture_id.as_str(), artifact.capture_id.as_str()) {
                kept.push(self.captures[i].clone());
            }
            i += 1;
            proof {
                assert(self.captures@.subrange(0, i as int).drop_last() =~= self.captures@.subrange(
                    0,
                    i as int - 1,
                ));
                assert(self.captures@.subrange(0, i as int).last() == self.captures@[i - 1]);
            }
        }
        proof {
            assert(self.captures@.subrange(0, n as int) =~= self.captures@);
        }
        self.active_capture_id = Some(artifact.capture_id.clone());
        kept.push(artifact);
        self.captures = kept;
    }

    /// The active artifact: the one the active id names, or the oldest
    /// capture as a fallback.
    pub fn active_capture(&self) -> (r: Option<&CaptureArtifact>)
        ensures
            ({
                match self.active_capture_id {
                    Some(id) => {
                        let f = spec_find_capture(self.captures@, id@);
                        if f < self.captures@.len() {
                            r matches Some(a) && *a == self.captures@[f]
                        } else if self.captures@.len() > 0 {
                            r matches Some(a) && *a == self.captures@[0]
                        } else {
                            r is None
                        }
                    },
                    None => {
                        if self.captures@.len() > 0 {
                            r matches Some(a) && *a == self.captures@[0]
                        } else {
                            r is None
                        }
                    },
                }
            }),
    {
        proof {
            match &self.active_capture_id {
                Some(id) => {
                    lemma_find_capture(self.captures@, id@);
                },
                None => {},
            }
        }
        let found = match &self.active_capture_id {
            Some(active) => self.find_capture(active.as_str()),
            None => None,
        };
        match found {
            Some(a) => Some(a),
            None => {
                if self.captures.len() > 0 {
                    Some(&self.captures[0])
                } else {
                    None
                }
            },
        }
    }

    /// The first artifact carrying `id`.
    fn find_capture(&self, id: &str) -> (r: Option<&CaptureArtifact>)
        ensures
            ({
                let f = spec_find_capture(self.captures@, id@);
                match r {
                    Some(a) => f < self.captures@.len() && *a == self.captures@[f],
                    None => f == self.captures@.len(),
                }
            }),
    {
        proof {
            lemma_find_capture(self.captures@, id@);
        }
        let n = self.captures.len();
        let mut i: usize = 0;
        while i < n
            invariant
                n == self.captures@.len(),
                i <= n,
                forall|j: int| 0 <= j < i ==> (#[trigger] self.captures@[j]).capture_id@ != id@,
            decreases n - i,
        {
            if str_eq(self.captures[i].capture_id.as_str(), id) {
                proof {
                    lemma_find_capture(self.captures@, id@);
                }
                return Some(&self.captures[i]);
            }
            i += 1;
        }
        proof {
            lemma_find_capture(self.captures@, id@);
        }
        None
    }

    /// Drop the artifact with `id`; a dangling active id falls back to the
    /// oldest remaining capture.
    pub fn remove_capture(&mut self, capture_id: &str)
        ensures
            ({
                let kept = spec_without_capture(old(self).captures@, capture_id@);
                final(self).captures@.len() == kept.len() && forall|i: int|
                    0 <= i < kept.len() ==> spec_artifact_eq(
                        #[trigger] final(self).captures@[i],
                        kept[i],
                    )
            }),
            ({
                match old(self).active_capture_id {
                    Some(a) => {
                        if spec_has_capture(final(self).captures@, a@) {
                            final(self).active_capture_id == old(self).active_capture_id
                        } else if final(self).captures@.len() > 0 {
                            final(self).active_capture_id matches Some(v)
                                && v@ == final(self).captures@[0].capture_id@
                        } else {
                            final(self).active_capture_id is None
                        }
                    },
                    None => {
                        if final(self).captures@.len() > 0 {
                            final(self).active_capture_id matches Some(v)
                                && v@ == final(self).captures@[0].capture_id@
                        } else {
                            final(self).active_capture_id is None
                        }
                    },
                }
            }),
    {
        let mut kept: Vec<CaptureArtifact> = Vec::new();
        let n = self.captures.len();
        let mut i: usize = 0;
        while i < n
            invariant
                n == self.captures@.len(),
                i <= n,
                ({
                    let w = spec_without_capture(
                        self.captures@.subrange(0, i as int),
                        capture_id@,
                    );
                    kept@.len() == w.len() && forall|j: int|
                        0 <= j < w.len() ==> spec_artifact_eq(#[trigger] kept@[j], w[j])
                }),
            decreases n - i,
        {
            if !str_eq(self.captures[i].capture_id.as_str(), capture_id) {
                kept.push(self.captures[i].clone());
            }
            i += 1;
            proof {
                assert(self.captures@.subrange(0, i as int).drop_last() =~= self.captures@.subrange(
                    0,
                    i as int - 1,
                ));
                assert(self.captures@.subrange(0, i as int).last() == self.captures@[i - 1]);
            }
        }
        proof {
            assert(self.captures@.subrange(0, n as int) =~= self.captures@);
        }
        self.captures = kept;
        self.ensure_active_capture();
    }

    /// Re-point the active id at a live capture: kept when it resolves,
    /// else the oldest capture, else none.
    fn ensure_active_capture(&mut self)
        ensures
            *final(self) == (RuntimeSession {
                active_capture_id: final(self).active_capture_id,
                ..*old(self)
            }),
            ({
                match old(self).active_capture_id {
                    Some(a) => {
                        if spec_has_capture(old(self).captures@, a@) {
                            final(self).active_capture_id == old(self).active_capture_id
                        } else if old(self).captures@.len() > 0 {
                            final(self).active_capture_id matches Some(v) && v@ == old(
                                self,
                            ).captures@[0].capture_id@
                        } else {
                            final(self).active_capture_id is None
                        }
                    },
                    None => {
                        if old(self).captures@.len() > 0 {
                            final(self).active_capture_id matches Some(v) && v@ == old(
                                self,
                            ).captures@[0].capture_id@
                        } else {
                            final(self).active_capture_id is None
                        }
                    },
                }
            }),
    {
        let resolved = match &self.active_capture_id {
            Some(active) => self.find_capture(active.as_str()).is_some(),
            None => false,
        };
        proof {
            match old(self).active_capture_id {
                Some(a) => {
                    lemma_find_capture(self.captures@, a@);
                },
                None => {},
            }
        }
        if resolved {
            return ;
        }
        if self.captures.len() > 0 {
            self.active_capture_id = Some(self.captures[0].capture_id.clone());
        } else {
            self.active_capture_id = None;
        }
    }

    /// Make the capture with `id` active; false when it is not live.
    pub fn set_active_capture(&mut self, capture_id: &str) -> (r: bool)
        ensures
            r == spec_has_capture(old(self).captures@, capture_id@),
            r ==> *final(self) == (RuntimeSession {
                active_capture_id: final(self).active_capture_id,
                ..*old(self)
            }) && (final(self).active_capture_id matches Some(v) && v@ == capture_id@),
            !r ==> *final(self) == *old(self),
    {
        proof {
            lemma_find_capture(self.captures@, capture_id@);
        }
        let found = self.find_capture(capture_id).is_some();
        if found {
            self.active_capture_id = Some(capture_id.to_owned());
            true
        } else {
            false
        }
    }

    /// The status-line label for the active capture: its id and pixel size,
    /// or a fixed note when nothing was captured yet.
    pub fn latest_label_text(&self) -> (r: String)
        ensures
            ({
                let resolved: Option<CaptureArtifact> = match self.active_capture_id {
                    Some(id) => {
                        let f = spec_find_capture(self.captures@, id@);
                        if f < self.captures@.len() {
                            Some(self.captures@[f])
                        } else if self.captures@.len() > 0 {
                            Some(self.captures@[0])
                        } else {
                            None
                        }
                    },
                    None => if self.captures@.len() > 0 {
                        Some(self.captures@[0])
                    } else {
                        None
                    },
                };
                match resolved {
                    Some(a) => r@ == a.capture_id@ + " ("@ + crate::strings::spec_decimal(
                        a.width as int,
                    ) + "x"@ + crate::strings::spec_decimal(a.height as int) + ")"@,
                    None => r@ == "No capture yet"@,
                }
            }),
    {
        match self.active_capture() {
            Some(a) => {
                let mut out = a.capture_id.clone();
                out.append(" (");
                let w = crate::strings::u32_to_string(a.width);
                out.append(w.as_str());
                out.append("x");
                let h = crate::strings::u32_to_string(a.height);
                out.append(h.as_str());
                out.append(")");
                proof {
                    assert(out@ =~= a.capture_id@ + " ("@ + crate::strings::spec_decimal(
                        a.width as int,
                    ) + "x"@ + crate::strings::spec_decimal(a.height as int) + ")"@);
                }
                out
            },
            None => "No capture yet".to_owned(),
        }
    }

    /// The capture ids, in capture order.
    pub fn ids_for_display(&self) -> (r: Vec<String>)
        ensures
            r@.len() == self.captures@.len(),
            forall|i: int|
                0 <= i < self.captures@.len() ==> (#[trigger] r@[i])@
                    == self.captures@[i].capture_id@,
    {
        let mut out: Vec<String> = Vec::new();
        let n = self.captures.len();
        let mut i: usize = 0;
        while i < n
            invariant
                n == self.captures@.len(),
                i <= n,
                out@.len() == i,
                forall|j: int|
                    0 <= j < i ==> (#[trigger] out@[j])@ == self.captures@[j].capture_id@,
            decreases n - i,
        {
            out.push(self.captures[i].capture_id.clone());
            i += 1;
        }
        out
    }

    /// Copies of the captures, in capture order.
    pub fn captures_for_display(&self) -> (r: Vec<CaptureArtifact>)
        ensures
            r@.len() == self.captures@.len(),
            forall|i: int|
                0 <= i < self.captures@.len() ==> spec_artifact_eq(
                    #[trigger] r@[i],
                    self.captures@[i],
                ),
    {
        let mut out: Vec<CaptureArtifact> = Vec::new();
        let n = self.captures.len();
        let mut i: usize = 0;
        while i < n
            invariant
                n == self.captures@.len(),
                i <= n,
                out@.len() == i,
                forall|j: int|
                    0 <= j < i ==> spec_artifact_eq(#[trigger] out@[j], self.captures@[j]),
            decreases n - i,
        {
            out.push(self.captures[i].clone());
            i += 1;
        }
        out
    }
}

} // verus!
