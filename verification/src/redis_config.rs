//! The configuration of the server.
use vstd::prelude::*;

use crate::native_types::ErrorStruct;
use crate::string_map::StringMap;
use crate::text::{
    push_char, push_text, split_by_char, split_on, split_first_char, split_whitespace, string_of,
    strip_cr, strip_line, words_of,
};

verus! {

/// Where the server listens, where it logs and how much it tells.
pub struct RedisConfig {
    pub ip: String,
    pub port: String,
    pub log_filename: String,
    pub verbose: usize,
}

impl RedisConfig {
    pub fn new(ip: String, port: String, log_filename: String, verbose: usize) -> (c: RedisConfig)
        ensures
            c.ip == ip,
            c.port == port,
            c.log_filename == log_filename,
            c.verbose == verbose,
    {
        RedisConfig { ip, port, log_filename, verbose }
    }

    pub fn ip(&self) -> (r: String)
        ensures
            r@ == self.ip@,
    {
        string_of(self.ip.as_str())
    }

    pub fn port(&self) -> (r: String)
        ensures
            r@ == self.port@,
    {
        string_of(self.port.as_str())
    }

    /// The address to listen on: the ip, a colon, then the port.
    pub fn get_addr(&self) -> (r: String)
        ensures
            r@ == self.ip@ + seq![':'] + self.port@,
    {
        let mut r = string_of(self.ip.as_str());
        push_char(&mut r, ':');
        push_text(&mut r, self.port.as_str());
        r
    }

    pub fn update_port(&mut self, port: &str)
        ensures
            final(self).port@ == port@,
            final(self).ip == old(self).ip,
            final(self).log_filename == old(self).log_filename,
            final(self).verbose == old(self).verbose,
    {
        self.port = string_of(port);
    }

    pub fn log_filename(&self) -> (r: String)
        ensures
            r@ == self.log_filename@,
    {
        string_of(self.log_filename.as_str())
    }

    pub fn verbose(&self) -> (r: &usize)
        ensures
            *r == self.verbose,
    {
        &self.verbose
    }
}

impl RedisConfig {
    /// The configuration the arguments of the program ask for: with one
    /// argument, the path of a configuration file, read from `file_content`
    /// (or the error of reading it); with any other number, the default.
    pub fn parse_config(argv: Vec<String>, file_content: Result<String, ErrorStruct>) -> (r: Result<RedisConfig, ErrorStruct>)
        requires
            argv@.len() == 2 ==> (file_content is Ok ==> config_readable(file_content->Ok_0@)),
        ensures
            argv@.len() == 2 ==> match file_content {
                Ok(text) => (r matches Ok(c) && config_from_text(c, text@)),
                Err(e) => r == Err::<RedisConfig, ErrorStruct>(e),
            },
            argv@.len() != 2 ==> (r matches Ok(c) && is_default_config(c)),
    {
        if argv.len() == 2 {
            let text = file_content?;
            Ok(RedisConfig::get_with_new_config(text.as_str()))
        } else {
            Ok(RedisConfig::default())
        }
    }

    /// The configuration that the text of a configuration file gives: the
    /// port it sets, or the default one; the default ip, log file and
    /// verbose level.
    pub fn get_with_new_config(text: &str) -> (c: RedisConfig)
        requires
            config_readable(text@),
        ensures
            config_from_text(c, text@),
    {
        let config = get_configs(text);
        let port = match config.get("port") {
            Some(p) => string_of(p.as_str()),
            None => string_of("6379"),
        };
        proof {
            reveal_strlit("6379");
        }
        RedisConfig { ip: string_of("127.0.0.1"), port, log_filename: string_of("logs.txt"), verbose: 0 }
    }
}

/// The default configuration.
pub open spec fn is_default_config(c: RedisConfig) -> bool {
    c.ip@ == "127.0.0.1"@ && c.port@ == "6379"@ && c.log_filename@ == "logs.txt"@ && c.verbose == 0
}

/// `c` is the configuration that the text of a configuration file gives.
pub open spec fn config_from_text(c: RedisConfig, text: Seq<char>) -> bool {
    &&& c.ip@ == "127.0.0.1"@
    &&& c.port@ == (if config_map(text).contains_key("port"@) {
        config_map(text)["port"@]
    } else {
        "6379"@
    })
    &&& c.log_filename@ == "logs.txt"@
    &&& c.verbose == 0
}


/// The lines of a text (`BufRead::lines`, up to a last empty one).
pub open spec fn config_lines(text: Seq<char>) -> Seq<Seq<char>> {
    split_on(text, '\n').map_values(|l: Seq<char>| strip_cr(l))
}

/// Whether a line says something: it is not empty and is no comment.
pub open spec fn kept_line() -> spec_fn(Seq<char>) -> bool {
    |l: Seq<char>| l.len() > 0 && l[0] != '#'
}

/// The name and the value a line gives: its first two words (a space when
/// there is no second).
pub open spec fn line_pair(l: Seq<char>) -> (Seq<char>, Seq<char>) {
    (words_of(l)[0], if words_of(l).len() > 1 {
        words_of(l)[1]
    } else {
        " "@
    })
}

/// The lines of a text that say something.
pub open spec fn kept_lines(text: Seq<char>) -> Seq<Seq<char>> {
    config_lines(text).filter(kept_line())
}

/// A text every line of which that says something holds a word.
pub open spec fn config_readable(text: Seq<char>) -> bool {
    forall|i: int| 0 <= i < kept_lines(text).len() ==> words_of(#[trigger] kept_lines(text)[i]).len() > 0
}

/// The settings of pairs given in turn: a later one wins.
pub open spec fn pairs_map(pairs: Seq<(Seq<char>, Seq<char>)>) -> Map<Seq<char>, Seq<char>>
    decreases pairs.len(),
{
    if pairs.len() == 0 {
        Map::empty()
    } else {
        pairs_map(pairs.drop_last()).insert(pairs.last().0, pairs.last().1)
    }
}

/// The names and values that lines give.
pub open spec fn line_pairs(lines: Seq<Seq<char>>) -> Seq<(Seq<char>, Seq<char>)> {
    lines.map_values(|l: Seq<char>| line_pair(l))
}

/// The settings of a configuration file.
pub open spec fn config_map(text: Seq<char>) -> Map<Seq<char>, Seq<char>> {
    pairs_map(line_pairs(kept_lines(text)))
}


/// The settings of a configuration file: for each line that is not empty
/// and is no comment, its first word names a setting and its second gives
/// the value (a space when there is none).
fn get_configs(text: &str) -> (m: StringMap<String>)
    requires
        config_readable(text@),
    ensures
        m.wf(),
        m@.map_values(|v: String| v@) == config_map(text@),
{
    let lines = split_by_char(text, '\n');
    let ghost all = config_lines(text@);
    let mut m: StringMap<String> = StringMap::new();
    let mut i: usize = 0;
    assert(all.take(0).filter(kept_line()) =~= Seq::<Seq<char>>::empty());
    assert(m@.map_values(|v: String| v@) =~= Map::<Seq<char>, Seq<char>>::empty());
    while i < lines.len()
        invariant
            i <= lines@.len(),
            lines@.len() == all.len(),
            all == config_lines(text@),
            forall|j: int| 0 <= j < all.len() ==> #[trigger] all[j] == strip_cr(lines@[j]@),
            config_readable(text@),
            m.wf(),
            m@.map_values(|v: String| v@) == pairs_map(line_pairs(all.take(i as int).filter(kept_line()))),
        decreases lines@.len() - i,
    {
        let line = strip_line(lines[i].clone());
        let ghost done = all.take(i as int).filter(kept_line());
        proof {
            assert(all.take(i + 1) =~= all.take(i as int).push(all[i as int]));
            all.take(i as int).lemma_filter_push(all[i as int], kept_line());
        }
        let first = if line.as_str().is_empty() {
            '#'
        } else {
            split_first_char(line.as_str()).0
        };
        if first != '#' {
            proof {
                assert(kept_line()(all[i as int]));
                assert(all.take(i + 1).filter(kept_line()) == done.push(all[i as int]));
                assert(kept_lines(text@) == all.filter(kept_line()));
                lemma_filter_prefix(all, i as int + 1, kept_line());
                assert(all.take(i + 1).filter(kept_line())[done.len() as int] == all[i as int]);
                assert(kept_lines(text@)[done.len() as int] == all[i as int]);
            }
            let words = split_whitespace(line.as_str());
            let key = words[0].clone();
            let value = if words.len() > 1 {
                words[1].clone()
            } else {
                string_of(" ")
            };
            proof {
                reveal_strlit(" ");
            }
            let ghost before = m@.map_values(|v: String| v@);
            m.insert(key, value);
            proof {
                let pairs = line_pairs(done);
                assert(line_pairs(done.push(all[i as int])) =~= pairs.push(line_pair(all[i as int])));
                assert(pairs.push(line_pair(all[i as int])).drop_last() =~= pairs);
                assert(m@.map_values(|v: String| v@) =~= before.insert(
                    line_pair(all[i as int]).0,
                    line_pair(all[i as int]).1,
                ));
            }
        } else {
            proof {
                assert(!kept_line()(all[i as int]));
                assert(all.take(i + 1).filter(kept_line()) == done);
            }
        }
        i = i + 1;
    }
    assert(all.take(lines@.len() as int) =~= all);
    m
}

/// The kept items of a prefix are a prefix of the kept items.
proof fn lemma_filter_prefix(s: Seq<Seq<char>>, n: int, keep: spec_fn(Seq<char>) -> bool)
    requires
        0 <= n <= s.len(),
    ensures
        s.take(n).filter(keep).len() <= s.filter(keep).len(),
        forall|j: int| 0 <= j < s.take(n).filter(keep).len() ==> #[trigger] s.take(n).filter(keep)[j]
            == s.filter(keep)[j],
    decreases s.len() - n,
{
    if n < s.len() {
        lemma_filter_prefix(s, n + 1, keep);
        assert(s.take(n + 1) =~= s.take(n).push(s[n]));
        s.take(n).lemma_filter_push(s[n], keep);
        let a = s.take(n).filter(keep);
        let b = s.take(n + 1).filter(keep);
        assert forall|j: int| 0 <= j < a.len() implies #[trigger] a[j] == s.filter(keep)[j] by {
            if keep(s[n]) {
                assert(b == a.push(s[n]));
                assert(b[j] == a[j]);
            } else {
                assert(b == a);
            }
            assert(b[j] == s.filter(keep)[j]);
        }
    } else {
        assert(s.take(n) =~= s);
    }
}

impl Default for RedisConfig {
    /// The default configuration: ip 127.0.0.1, port 6379, log file
    /// `logs.txt`, verbose level 0.
    fn default() -> (c: Self)
        ensures
            c.ip@ == "127.0.0.1"@,
            c.port@ == "6379"@,
            c.log_filename@ == "logs.txt"@,
            c.verbose == 0,
    {
        RedisConfig {
            ip: string_of("127.0.0.1"),
            port: string_of("6379"),
            log_filename: string_of("logs.txt"),
            verbose: 0,
        }
    }
}

} // verus!
