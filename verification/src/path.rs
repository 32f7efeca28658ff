//! Absolute paths inside the volume tree.

use vstd::prelude::*;

verus! {

/// An absolute path: a volume letter and the directory components below the
/// volume root, in order. The textual form is `X:\` for a volume root and
/// `X:\a\b` below it.
pub struct VPath {
    pub volume: char,
    pub comps: Vec<String>,
}

impl View for VPath {
    type V = (char, Seq<Seq<char>>);

    open spec fn view(&self) -> (char, Seq<Seq<char>>) {
        (self.volume, self.comps.deep_view())
    }
}

impl VPath {
    /// The volume letter is an ASCII capital letter.
    pub open spec fn wf(self) -> bool {
        65 <= self.volume as int <= 90
    }

    /// The path of a volume root.
    pub fn root(volume: char) -> (p: VPath)
        ensures
            p@.0 == volume,
            p@.1 == Seq::<Seq<char>>::empty(),
    {
        let p = VPath { volume, comps: Vec::new() };
        proof {
            assert(p@.1 =~= Seq::<Seq<char>>::empty());
        }
        p
    }

    /// Descends into the child named `name`.
    pub fn push_comp(&mut self, name: String)
        ensures
            final(self)@.0 == old(self)@.0,
            final(self)@.1 == old(self)@.1.push(name@),
            final(self).wf() == old(self).wf(),
    {
        self.comps.push(name);
        proof {
            assert(self@.1 =~= old(self)@.1.push(name@));
        }
    }

    /// Ascends to the parent directory.
    pub fn pop_comp(&mut self)
        requires
            old(self)@.1.len() > 0,
        ensures
            final(self)@.0 == old(self)@.0,
            final(self)@.1 == old(self)@.1.drop_last(),
            final(self).wf() == old(self).wf(),
    {
        self.comps.pop();
        proof {
            assert(self@.1 =~= old(self)@.1.drop_last());
        }
    }

    /// The name of the directory the path ends in, or `None` at a volume root.
    pub fn last_comp(&self) -> (r: Option<&String>)
        ensures
            match r {
                Some(s) => self@.1.len() > 0 && s@ == self@.1.last(),
                None => self@.1.len() == 0,
            },
    {
        if self.comps.len() > 0 {
            Some(&self.comps[self.comps.len() - 1])
        } else {
            None
        }
    }

    /// A path with the same text, built from fresh strings.
    pub fn duplicate(&self) -> (r: VPath)
        ensures
            r@ == self@,
    {
        let mut comps: Vec<String> = Vec::new();
        let n = self.comps.len();
        let mut i: usize = 0;
        while i < n
            invariant
                i <= n,
                n == self.comps@.len(),
                comps@.len() == i,
                forall|k: int| 0 <= k < i ==> comps@[k]@ == #[trigger] self.comps@[k]@,
            decreases n - i,
        {
            comps.push(self.comps[i].clone());
            i = i + 1;
        }
        let r = VPath { volume: self.volume, comps };
        proof {
            assert(r@.1 =~= self@.1);
        }
        r
    }
}

/// The textual prefix `X:\` of a volume letter.
pub fn drive_prefix(volume: char) -> (r: &'static str)
    requires
        65 <= volume as int <= 90,
    ensures
        r@ == seq![volume, ':', '\\'],
{
    match volume {
        'A' => {
            proof {
                reveal_strlit("A:\\");
                assert("A:\\"@ =~= seq!['A', ':', '\\']);
            }
            "A:\\"
        },
        'B' => {
            proof {
                reveal_strlit("B:\\");
                assert("B:\\"@ =~= seq!['B', ':', '\\']);
            }
            "B:\\"
        },
        'C' => {
            proof {
                reveal_strlit("C:\\");
                assert("C:\\"@ =~= seq!['C', ':', '\\']);
            }
            "C:\\"
        },
        'D' => {
            proof {
                reveal_strlit("D:\\");
                assert("D:\\"@ =~= seq!['D', ':', '\\']);
            }
            "D:\\"
        },
        'E' => {
            proof {
                reveal_strlit("E:\\");
                assert("E:\\"@ =~= seq!['E', ':', '\\']);
            }
            "E:\\"
        },
        'F' => {
            proof {
                reveal_strlit("F:\\");
                assert("F:\\"@ =~= seq!['F', ':', '\\']);
            }
            "F:\\"
        },
        'G' => {
            proof {
                reveal_strlit("G:\\");
                assert("G:\\"@ =~= seq!['G', ':', '\\']);
            }
            "G:\\"
        },
        'H' => {
            proof {
                reveal_strlit("H:\\");
                assert("H:\\"@ =~= seq!['H', ':', '\\']);
            }
            "H:\\"
        },
        'I' => {
            proof {
                reveal_strlit("I:\\");
                assert("I:\\"@ =~= seq!['I', ':', '\\']);
            }
            "I:\\"
        },
        'J' => {
            proof {
                reveal_strlit("J:\\");
                assert("J:\\"@ =~= seq!['J', ':', '\\']);
            }
            "J:\\"
        },
        'K' => {
            proof {
                reveal_strlit("K:\\");
                assert("K:\\"@ =~= seq!['K', ':', '\\']);
            }
            "K:\\"
        },
        'L' => {
            proof {
                reveal_strlit("L:\\");
                assert("L:\\"@ =~= seq!['L', ':', '\\']);
            }
            "L:\\"
        },
        'M' => {
            proof {
                reveal_strlit("M:\\");
                assert("M:\\"@ =~= seq!['M', ':', '\\']);
            }
            "M:\\"
        },
        'N' => {
            proof {
                reveal_strlit("N:\\");
                assert("N:\\"@ =~= seq!['N', ':', '\\']);
            }
            "N:\\"
        },
        'O' => {
            proof {
                reveal_strlit("O:\\");
                assert("O:\\"@ =~= seq!['O', ':', '\\']);
            }
            "O:\\"
        },
        'P' => {
            proof {
                reveal_strlit("P:\\");
                assert("P:\\"@ =~= seq!['P', ':', '\\']);
            }
            "P:\\"
        },
        'Q' => {
            proof {
                reveal_strlit("Q:\\");
                assert("Q:\\"@ =~= seq!['Q', ':', '\\']);
            }
            "Q:\\"
        },
        'R' => {
            proof {
                reveal_strlit("R:\\");
                assert("R:\\"@ =~= seq!['R', ':', '\\']);
            }
            "R:\\"
        },
        'S' => {
            proof {
                reveal_strlit("S:\\");
                assert("S:\\"@ =~= seq!['S', ':', '\\']);
            }
            "S:\\"
        },
        'T' => {
            proof {
                reveal_strlit("T:\\");
                assert("T:\\"@ =~= seq!['T', ':', '\\']);
            }
            "T:\\"
        },
        'U' => {
            proof {
                reveal_strlit("U:\\");
                assert("U:\\"@ =~= seq!['U', ':', '\\']);
            }
            "U:\\"
        },
        'V' => {
            proof {
                reveal_strlit("V:\\");
                assert("V:\\"@ =~= seq!['V', ':', '\\']);
            }
            "V:\\"
        },
        'W' => {
            proof {
                reveal_strlit("W:\\");
                assert("W:\\"@ =~= seq!['W', ':', '\\']);
            }
            "W:\\"
        },
        'X' => {
            proof {
                reveal_strlit("X:\\");
                assert("X:\\"@ =~= seq!['X', ':', '\\']);
            }
            "X:\\"
        },
        'Y' => {
            proof {
                reveal_strlit("Y:\\");
                assert("Y:\\"@ =~= seq!['Y', ':', '\\']);
            }
            "Y:\\"
        },
        'Z' => {
            proof {
                reveal_strlit("Z:\\");
                assert("Z:\\"@ =~= seq!['Z', ':', '\\']);
            }
            "Z:\\"
        },
        _ => {
            proof {
                assert(false);
            }
            ""
        },
    }
}

/// The text of the components of a path, separated by backslashes.
pub open spec fn comps_text(cs: Seq<Seq<char>>) -> Seq<char>
    decreases cs.len(),
{
    if cs.len() == 0 {
        Seq::empty()
    } else if cs.len() == 1 {
        cs[0]
    } else {
        comps_text(cs.drop_last()) + seq!['\\'] + cs.last()
    }
}

/// The textual form of a path: `X:\` followed by its components,
/// separated by backslashes.
pub open spec fn display_seq(p: (char, Seq<Seq<char>>)) -> Seq<char> {
    seq![p.0, ':', '\\'] + comps_text(p.1)
}

impl VPath {
    /// Renders the path as text.
    pub fn display(&self) -> (r: String)
        requires
            self.wf(),
        ensures
            r@ == display_seq(self@),
    {
        let mut s = String::from_str(drive_prefix(self.volume));
        let n = self.comps.len();
        let mut i: usize = 0;
        proof {
            assert(self@.1.take(0) =~= Seq::<Seq<char>>::empty());
            assert(s@ =~= display_seq((self@.0, self@.1.take(0))));
        }
        while i < n
            invariant
                i <= n,
                self.wf(),
                n == self.comps@.len(),
                s@ == display_seq((self@.0, self@.1.take(i as int))),
            decreases n - i,
        {
            let ghost pre = self@.1.take(i as int);
            let ghost post = self@.1.take(i as int + 1);
            proof {
                assert(post.drop_last() =~= pre);
                assert(post.last() == self@.1[i as int]);
                reveal_strlit("\\");
                assert("\\"@ =~= seq!['\\']);
            }
            if i > 0 {
                s.append("\\");
            }
            s.append(self.comps[i].as_str());
            proof {
                if i == 0 {
                    assert(comps_text(post) == post[0]);
                    assert(s@ =~= display_seq((self@.0, post)));
                } else {
                    assert(comps_text(post) == comps_text(pre) + seq!['\\'] + post.last());
                    assert(s@ =~= display_seq((self@.0, post)));
                }
            }
            i = i + 1;
        }
        proof {
            assert(self@.1.take(n as int) =~= self@.1);
        }
        s
    }
}


/// The display label of a volume, `X:`.
pub fn drive_label(volume: char) -> (r: String)
    requires
        65 <= volume as int <= 90,
    ensures
        r@ == seq![volume, ':'],
{
    let p = drive_prefix(volume);
    proof {
        assert(p@.subrange(0, 2) =~= seq![volume, ':']);
    }
    let s = p.substring_char(0, 2);
    String::from_str(s)
}

} // verus!
