//! The pure half of credential-file handling: deciding whether a key=value
//! file already holds an entry for a key, so that a caller appending entries
//! never duplicates one. The check works on the file's bytes and mirrors
//! line splitting as `str::lines` does it (a line ends at a newline or at
//! the end of the text, a carriage return before the newline is stripped,
//! and the empty tail after a final newline is no line).

use vstd::prelude::*;

verus! {

pub const NEWLINE: u8 = 10;

pub const CARRIAGE_RETURN: u8 = 13;

pub const EQUALS_SIGN: u8 = 61;

/// Whether `[start, end)` delimits one line of `s`: it begins at the start
/// of the text or right after a newline, runs to the next newline or to the
/// end of the text, and is not the empty tail after a final newline.
pub open spec fn is_line_at(s: Seq<u8>, start: int, end: int) -> bool {
    &&& 0 <= start <= end <= s.len()
    &&& start < s.len()
    &&& start == 0 || s[start - 1] == NEWLINE
    &&& end == s.len() || s[end] == NEWLINE
    &&& forall|k: int| start <= k < end ==> s[k] != NEWLINE
}

/// The bytes of the line delimited by `[start, end)`. A carriage return
/// right before the terminating newline is stripped; a bare carriage
/// return at the end of the text is kept, as `str::lines` keeps it.
pub open spec fn line_at(s: Seq<u8>, start: int, end: int) -> Seq<u8> {
    let raw = s.subrange(start, end);
    if end < s.len() && raw.len() > 0 && raw.last() == CARRIAGE_RETURN {
        raw.drop_last()
    } else {
        raw
    }
}

/// The key of one line: its bytes before the first equals sign, or the
/// whole line when it holds none.
pub open spec fn line_key(line: Seq<u8>) -> Seq<u8>
    decreases line.len(),
{
    if line.len() == 0 {
        line
    } else if line[0] == EQUALS_SIGN {
        Seq::empty()
    } else {
        seq![line[0]] + line_key(line.drop_first())
    }
}

/// Whether some line of the file has exactly `key` before its first equals
/// sign.
pub open spec fn has_env_key(s: Seq<u8>, key: Seq<u8>) -> bool {
    exists|start: int, end: int|
        #[trigger] is_line_at(s, start, end) && line_key(line_at(s, start, end)) == key
}

/// An index-wise restatement of `line_key(line) == key`: the key is a
/// prefix of the line, holds no equals sign, and is ended in the line by an
/// equals sign or by the line's end.
pub open spec fn key_matches(line: Seq<u8>, key: Seq<u8>) -> bool {
    &&& key.len() <= line.len()
    &&& forall|i: int| 0 <= i < key.len() ==> line[i] == #[trigger] key[i] && key[i] != EQUALS_SIGN
    &&& key.len() == line.len() || line[key.len() as int] == EQUALS_SIGN
}

proof fn lemma_line_key_characterization(line: Seq<u8>, key: Seq<u8>)
    ensures
        (line_key(line) == key) <==> key_matches(line, key),
    decreases line.len(),
{
    if line.len() == 0 {
        if key.len() == 0 {
            assert(key =~= line);
            assert(key_matches(line, key));
        }
    } else if line[0] == EQUALS_SIGN {
        if key.len() == 0 {
            assert(key =~= Seq::<u8>::empty());
            assert(line_key(line) == key);
            assert(key_matches(line, key));
        } else {
            assert(line_key(line).len() == 0);
            if key_matches(line, key) {
                assert(line[0] == key[0] && key[0] != EQUALS_SIGN);
            }
            assert(!key_matches(line, key));
        }
    } else {
        let rest = line.drop_first();
        let head = seq![line[0]];
        assert(line_key(line) == head + line_key(rest));
        assert((head + line_key(rest)).len() == 1 + line_key(rest).len());
        if key.len() == 0 {
            assert(line_key(line) != key);
            assert(!key_matches(line, key));
        } else {
            let keyrest = key.drop_first();
            lemma_line_key_characterization(rest, keyrest);
            if line_key(line) == key {
                assert(key[0] == (head + line_key(rest))[0]);
                assert(key[0] == line[0]);
                assert(keyrest =~= line_key(rest)) by {
                    assert forall|i: int| 0 <= i < keyrest.len() implies keyrest[i] == line_key(
                        rest,
                    )[i] by {
                        assert(keyrest[i] == key[i + 1]);
                        assert(key[i + 1] == (head + line_key(rest))[i + 1]);
                    }
                }
                assert(key_matches(rest, keyrest));
                assert forall|i: int| 0 <= i < key.len() implies line[i] == #[trigger] key[i]
                    && key[i] != EQUALS_SIGN by {
                    if i > 0 {
                        assert(keyrest[i - 1] == key[i]);
                        assert(rest[i - 1] == line[i]);
                    }
                }
                assert(key.len() == line.len() || line[key.len() as int] == EQUALS_SIGN) by {
                    if key.len() < line.len() {
                        assert(keyrest.len() < rest.len());
                        assert(rest[keyrest.len() as int] == line[key.len() as int]);
                    }
                }
                assert(key_matches(line, key));
            }
            if key_matches(line, key) {
                assert(key[0] == line[0]);
                assert(key_matches(rest, keyrest)) by {
                    assert forall|i: int| 0 <= i < keyrest.len() implies rest[i]
                        == #[trigger] keyrest[i] && keyrest[i] != EQUALS_SIGN by {
                        assert(keyrest[i] == key[i + 1]);
                        assert(rest[i] == line[i + 1]);
                    }
                    assert(keyrest.len() == rest.len() || rest[keyrest.len() as int]
                        == EQUALS_SIGN) by {
                        if keyrest.len() < rest.len() {
                            assert(rest[keyrest.len() as int] == line[key.len() as int]);
                        }
                    }
                }
                assert(line_key(rest) == keyrest);
                assert(key =~= head + line_key(rest)) by {
                    assert forall|i: int| 0 <= i < key.len() implies key[i] == (head + line_key(
                        rest,
                    ))[i] by {
                        if i > 0 {
                            assert((head + line_key(rest))[i] == keyrest[i - 1]);
                            assert(key[i] == keyrest[i - 1]);
                        }
                    }
                }
                assert(line_key(line) == key);
            }
        }
    }
}

/// Compare the key of the line delimited by `[start, end)` against `key`.
fn line_key_matches(contents: &[u8], start: usize, end: usize, key: &[u8]) -> (b: bool)
    requires
        start <= end <= contents@.len(),
    ensures
        b == (line_key(line_at(contents@, start as int, end as int)) == key@),
{
    proof {
        lemma_line_key_characterization(line_at(contents@, start as int, end as int), key@);
    }
    let line_end: usize = if end < contents.len() && end > start && contents[end - 1]
        == CARRIAGE_RETURN {
        end - 1
    } else {
        end
    };
    let ghost line = line_at(contents@, start as int, end as int);
    proof {
        assert(line =~= contents@.subrange(start as int, line_end as int));
    }
    if key.len() > line_end - start {
        return false;
    }
    let mut i: usize = 0;
    while i < key.len()
        invariant
            start <= line_end <= contents@.len(),
            key@.len() <= line_end - start,
            i <= key@.len(),
            line == contents@.subrange(start as int, line_end as int),
            line == line_at(contents@, start as int, end as int),
            end <= contents@.len(),
            forall|j: int| 0 <= j < i ==> line[j] == #[trigger] key@[j] && key@[j] != EQUALS_SIGN,
        decreases key@.len() - i,
    {
        if contents[start + i] != key[i] || key[i] == EQUALS_SIGN {
            proof {
                lemma_line_key_characterization(line, key@);
                assert(line[i as int] == contents@[start + i]);
                assert(!key_matches(line, key@));
            }
            return false;
        }
        i = i + 1;
    }
    if start + key.len() == line_end {
        proof {
            assert(key_matches(line, key@));
        }
        true
    } else if contents[start + key.len()] == EQUALS_SIGN {
        proof {
            assert(line[key@.len() as int] == contents@[start + key@.len()]);
            assert(key_matches(line, key@));
        }
        true
    } else {
        proof {
            assert(line[key@.len() as int] == contents@[start + key@.len()]);
            assert(!key_matches(line, key@));
        }
        false
    }
}

/// Whether the credential file already holds an entry for `key`: whether
/// some line of `contents` has exactly `key` before its first equals sign.
pub fn env_file_has_key(contents: &[u8], key: &[u8]) -> (b: bool)
    ensures
        b == has_env_key(contents@, key@),
{
    let ghost cv = contents@;
    let n: usize = contents.len();
    let mut start: usize = 0;
    while start < n
        invariant
            n == cv.len(),
            cv == contents@,
            start <= n,
            start == 0 || cv[start - 1] == NEWLINE,
            forall|a: int, e: int|
                #[trigger] is_line_at(cv, a, e) && a < start ==> line_key(line_at(cv, a, e))
                    != key@,
        decreases n - start,
    {
        let mut end: usize = start;
        while end < n && contents[end] != NEWLINE
            invariant
                n == cv.len(),
                cv == contents@,
                start <= end <= n,
                forall|k: int| start <= k < end ==> cv[k] != NEWLINE,
            decreases n - end,
        {
            end = end + 1;
        }
        proof {
            assert(is_line_at(cv, start as int, end as int));
        }
        if line_key_matches(contents, start, end, key) {
            proof {
                assert(is_line_at(cv, start as int, end as int) && line_key(
                    line_at(cv, start as int, end as int),
                ) == key@);
            }
            return true;
        }
        proof {
            assert forall|a: int, e: int|
                #[trigger] is_line_at(cv, a, e) && a < end + 1 implies line_key(line_at(cv, a, e))
                != key@ by {
                if a < start {
                } else if a == start {
                    assert(e == end as int) by {
                        if e < end {
                            assert(cv[e] == NEWLINE);
                        } else if e > end {
                            assert(end < n);
                            assert(cv[end as int] == NEWLINE);
                        }
                    }
                } else {
                    assert(start < a <= end);
                    assert(cv[a - 1] != NEWLINE);
                    assert(!is_line_at(cv, a, e));
                }
            }
        }
        if end == n {
            proof {
                assert forall|a: int, e: int|
                    !(#[trigger] is_line_at(cv, a, e) && line_key(line_at(cv, a, e)) == key@) by {
                    if is_line_at(cv, a, e) {
                        assert(a < cv.len());
                    }
                }
            }
            return false;
        }
        start = end + 1;
    }
    proof {
        assert forall|a: int, e: int|
            !(#[trigger] is_line_at(cv, a, e) && line_key(line_at(cv, a, e)) == key@) by {
            if is_line_at(cv, a, e) {
                assert(a < cv.len());
            }
        }
    }
    false
}

} // verus!
