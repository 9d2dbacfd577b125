use vstd::prelude::*;

use crate::ident::EntityId;
use crate::strutil::{eq_str, find_slash, first_slash, lemma_first_slash,
    lemma_first_slash_concat, lemma_first_slash_of_suffix};

verus! {

/// A topic in the data plane's three-class hierarchy.
///
/// * `EntityMeta` — `tanuki/entities/{entity}/$meta/{key}`
/// * `CapabilityMeta` — `tanuki/entities/{entity}/{capability}/$meta/{key}`
/// * `CapabilityData` — `tanuki/entities/{entity}/{capability}/{rest}`,
///   where `rest` may itself contain `/` and is kept verbatim.
#[derive(Debug)]
pub enum Topic {
    EntityMeta { entity: EntityId, key: String },
    CapabilityMeta { entity: EntityId, capability: String, key: String },
    CapabilityData { entity: EntityId, capability: String, rest: String },
}

/// The mathematical shape of a [`Topic`].
pub ghost enum TopicV {
    EntityMeta { entity: Seq<char>, key: Seq<char> },
    CapabilityMeta { entity: Seq<char>, capability: Seq<char>, key: Seq<char> },
    CapabilityData { entity: Seq<char>, capability: Seq<char>, rest: Seq<char> },
}

impl View for Topic {
    type V = TopicV;

    open spec fn view(&self) -> TopicV {
        match self {
            Topic::EntityMeta { entity, key } => TopicV::EntityMeta {
                entity: entity@,
                key: key@,
            },
            Topic::CapabilityMeta { entity, capability, key } => TopicV::CapabilityMeta {
                entity: entity@,
                capability: capability@,
                key: key@,
            },
            Topic::CapabilityData { entity, capability, rest } => TopicV::CapabilityData {
                entity: entity@,
                capability: capability@,
                rest: rest@,
            },
        }
    }
}

impl Clone for Topic {
    fn clone(&self) -> (r: Self)
        ensures
            r@ == self@,
    {
        match self {
            Topic::EntityMeta { entity, key } => Topic::EntityMeta {
                entity: entity.clone(),
                key: key.clone(),
            },
            Topic::CapabilityMeta { entity, capability, key } => Topic::CapabilityMeta {
                entity: entity.clone(),
                capability: capability.clone(),
                key: key.clone(),
            },
            Topic::CapabilityData { entity, capability, rest } => Topic::CapabilityData {
                entity: entity.clone(),
                capability: capability.clone(),
                rest: rest.clone(),
            },
        }
    }
}

/// A single well-formed topic segment: non-empty, without `/`.
pub open spec fn seg_wf(s: Seq<char>) -> bool {
    s.len() > 0 && first_slash(s) == -1
}

/// A well-formed data remainder: non-empty first segment that is not the
/// reserved `$meta` marker; later segments are free.
pub open spec fn rest_wf(r: Seq<char>) -> bool {
    &&& r.len() > 0
    &&& r[0] != '/'
    &&& r != "$meta"@
    &&& !(r.len() >= 6 && r.take(6) == "$meta/"@)
}

/// A topic whose wire form parses back to the same value.
pub open spec fn topic_wf(t: TopicV) -> bool {
    match t {
        TopicV::EntityMeta { entity, key } => seg_wf(entity) && seg_wf(key),
        TopicV::CapabilityMeta { entity, capability, key } => seg_wf(entity) && seg_wf(capability)
            && capability != "$meta"@ && seg_wf(key),
        TopicV::CapabilityData { entity, capability, rest } => seg_wf(entity) && seg_wf(capability)
            && capability != "$meta"@ && rest_wf(rest),
    }
}

/// The wire form of a topic.
pub open spec fn spec_format(t: TopicV) -> Seq<char> {
    match t {
        TopicV::EntityMeta { entity, key } => "tanuki/entities/"@ + entity + "/$meta/"@ + key,
        TopicV::CapabilityMeta { entity, capability, key } => "tanuki/entities/"@ + entity
            + seq!['/'] + capability + "/$meta/"@ + key,
        TopicV::CapabilityData { entity, capability, rest } => "tanuki/entities/"@ + entity
            + seq!['/'] + capability + seq!['/'] + rest,
    }
}

/// Why a topic string failed to parse; `err_msg` gives the reported text.
pub ghost enum TopicErr {
    Prefix,
    Entity,
    EntityMetaKey,
    EntityMetaTrail,
    Data,
    CapMetaKey,
    CapMetaTrail,
}

pub open spec fn err_msg(e: TopicErr) -> Seq<char> {
    match e {
        TopicErr::Prefix => "tanuki/entities/..."@,
        TopicErr::Entity => "tanuki/entities/{id}/..."@,
        TopicErr::EntityMetaKey => "tanuki/entities/{id}/$meta/{key}"@,
        TopicErr::EntityMetaTrail => "tanuki/entities/{id}/$meta/{key}/..."@,
        TopicErr::Data => "tanuki/entities/{id}/{capability}/..."@,
        TopicErr::CapMetaKey => "tanuki/entities/{id}/{capability}/$meta/{key}"@,
        TopicErr::CapMetaTrail => "tanuki/entities/{id}/{capability}/$meta/{key}/..."@,
    }
}

/// Reading a wire topic left to right: the fixed prefix, the entity up to the
/// next `/`, then either the `$meta` marker with exactly one key segment, or a
/// capability followed by `$meta` plus key, or a non-empty data remainder.
pub open spec fn spec_parse(s: Seq<char>) -> Result<TopicV, TopicErr> {
    if s.len() < 16 || s.take(16) != "tanuki/entities/"@ {
        Err(TopicErr::Prefix)
    } else {
        let r1 = s.skip(16);
        let i = first_slash(r1);
        if i < 0 {
            Err(TopicErr::Entity)
        } else {
            let entity = r1.take(i);
            let r2 = r1.skip(i + 1);
            if r2 == "$meta"@ {
                Err(TopicErr::EntityMetaKey)
            } else if r2.len() >= 6 && r2.take(6) == "$meta/"@ {
                let key = r2.skip(6);
                if first_slash(key) >= 0 {
                    Err(TopicErr::EntityMetaTrail)
                } else {
                    Ok(TopicV::EntityMeta { entity, key })
                }
            } else {
                let j = first_slash(r2);
                if j < 0 {
                    Err(TopicErr::Data)
                } else {
                    let capability = r2.take(j);
                    let r3 = r2.skip(j + 1);
                    if r3 == "$meta"@ {
                        Err(TopicErr::CapMetaKey)
                    } else if r3.len() >= 6 && r3.take(6) == "$meta/"@ {
                        let key = r3.skip(6);
                        if first_slash(key) >= 0 {
                            Err(TopicErr::CapMetaTrail)
                        } else {
                            Ok(TopicV::CapabilityMeta { entity, capability, key })
                        }
                    } else if r3.len() == 0 || r3[0] == '/' {
                        Err(TopicErr::Data)
                    } else {
                        Ok(TopicV::CapabilityData { entity, capability, rest: r3 })
                    }
                }
            }
        }
    }
}

impl Topic {
    /// Renders the topic in its wire form.
    pub fn format(&self) -> (r: String)
        ensures
            r@ == spec_format(self@),
    {
        let mut out = String::from_str("tanuki/entities/");
        match self {
            Topic::EntityMeta { entity, key } => {
                out.append(entity.as_str());
                out.append("/$meta/");
                out.append(key.as_str());
            },
            Topic::CapabilityMeta { entity, capability, key } => {
                out.append(entity.as_str());
                out.append("/");
                out.append(capability.as_str());
                out.append("/$meta/");
                out.append(key.as_str());
            },
            Topic::CapabilityData { entity, capability, rest } => {
                out.append(entity.as_str());
                out.append("/");
                out.append(capability.as_str());
                out.append("/");
                out.append(rest.as_str());
            },
        }
        proof {
            reveal_strlit("/");
            assert("/"@ =~= seq!['/']);
        }
        out
    }

    /// Parses a wire topic; errors name the depth that was reached.
    pub fn parse(s: &str) -> (r: Result<Topic, &'static str>)
        ensures
            match spec_parse(s@) {
                Ok(tv) => r is Ok && r->Ok_0@ == tv,
                Err(e) => r is Err && r->Err_0@ == err_msg(e),
            },
    {
        proof {
            reveal_strlit("tanuki/entities/");
            reveal_strlit("$meta");
            reveal_strlit("$meta/");
        }
        let ghost sv = s@;
        let n = s.unicode_len();
        if n < 16 {
            return Err("tanuki/entities/...");
        }
        let pre = s.substring_char(0, 16);
        proof {
            assert(sv.take(16) =~= pre@);
        }
        if !eq_str(pre, "tanuki/entities/") {
            return Err("tanuki/entities/...");
        }
        let ghost r1 = sv.skip(16);
        let i = match find_slash(s, 16) {
            None => {
                proof {
                    lemma_first_slash_of_suffix(sv, 16, -1);
                }
                return Err("tanuki/entities/{id}/...");
            },
            Some(i) => i,
        };
        proof {
            lemma_first_slash_of_suffix(sv, 16, i as int);
            assert(first_slash(r1) == i - 16);
        }
        let entity_str = s.substring_char(16, i);
        proof {
            assert(entity_str@ =~= r1.take(i - 16));
        }
        let p2 = i + 1;
        let ghost r2 = r1.skip(i - 16 + 1);
        proof {
            assert(r2 =~= sv.skip(p2 as int));
        }
        // the `$meta` marker directly after the entity
        if n - p2 == 5 {
            let seg = s.substring_char(p2, n);
            proof {
                assert(seg@ =~= r2);
            }
            if eq_str(seg, "$meta") {
                return Err("tanuki/entities/{id}/$meta/{key}");
            }
        }
        proof {
            assert(r2.len() == n - p2);
        }
        let ent_meta = if n - p2 >= 6 {
            let seg = s.substring_char(p2, p2 + 6);
            proof {
                assert(seg@ =~= r2.take(6));
            }
            eq_str(seg, "$meta/")
        } else {
            false
        };
        if ent_meta {
            let key_start = p2 + 6;
            let ghost keyv = r2.skip(6);
            proof {
                assert(keyv =~= sv.skip(key_start as int));
            }
            match find_slash(s, key_start) {
                Some(k) => {
                    proof {
                        lemma_first_slash_of_suffix(sv, key_start as int, k as int);
                    }
                    return Err("tanuki/entities/{id}/$meta/{key}/...");
                },
                None => {
                    proof {
                        lemma_first_slash_of_suffix(sv, key_start as int, -1);
                    }
                    let key = s.substring_char(key_start, n).to_owned();
                    proof {
                        assert(key@ =~= keyv);
                    }
                    return Ok(Topic::EntityMeta {
                        entity: EntityId::from_str(entity_str),
                        key,
                    });
                },
            }
        }
        // a capability segment
        let j = match find_slash(s, p2) {
            None => {
                proof {
                    lemma_first_slash_of_suffix(sv, p2 as int, -1);
                }
                return Err("tanuki/entities/{id}/{capability}/...");
            },
            Some(j) => j,
        };
        proof {
            lemma_first_slash_of_suffix(sv, p2 as int, j as int);
            assert(first_slash(r2) == j - p2);
        }
        let cap_str = s.substring_char(p2, j);
        proof {
            assert(cap_str@ =~= r2.take(j - p2));
        }
        let p3 = j + 1;
        let ghost r3 = r2.skip(j - p2 + 1);
        proof {
            assert(r3 =~= sv.skip(p3 as int));
        }
        // the `$meta` marker under the capability
        if n - p3 == 5 {
            let seg = s.substring_char(p3, n);
            proof {
                assert(seg@ =~= r3);
            }
            if eq_str(seg, "$meta") {
                return Err("tanuki/entities/{id}/{capability}/$meta/{key}");
            }
        }
        proof {
            assert(r3.len() == n - p3);
        }
        let cap_meta = if n - p3 >= 6 {
            let seg = s.substring_char(p3, p3 + 6);
            proof {
                assert(seg@ =~= r3.take(6));
            }
            eq_str(seg, "$meta/")
        } else {
            false
        };
        if cap_meta {
            let key_start = p3 + 6;
            let ghost keyv = r3.skip(6);
            proof {
                assert(keyv =~= sv.skip(key_start as int));
            }
            match find_slash(s, key_start) {
                Some(k) => {
                    proof {
                        lemma_first_slash_of_suffix(sv, key_start as int, k as int);
                    }
                    return Err("tanuki/entities/{id}/{capability}/$meta/{key}/...");
                },
                None => {
                    proof {
                        lemma_first_slash_of_suffix(sv, key_start as int, -1);
                    }
                    let key = s.substring_char(key_start, n).to_owned();
                    proof {
                        assert(key@ =~= keyv);
                    }
                    return Ok(Topic::CapabilityMeta {
                        entity: EntityId::from_str(entity_str),
                        capability: cap_str.to_owned(),
                        key,
                    });
                },
            }
        }
        // a non-empty data remainder, kept verbatim
        if p3 == n {
            return Err("tanuki/entities/{id}/{capability}/...");
        }
        if s.get_char(p3) == '/' {
            return Err("tanuki/entities/{id}/{capability}/...");
        }
        let rest = s.substring_char(p3, n).to_owned();
        proof {
            assert(rest@ =~= r3);
        }
        Ok(Topic::CapabilityData {
            entity: EntityId::from_str(entity_str),
            capability: cap_str.to_owned(),
            rest,
        })
    }
}

/// A wire form starting with a slash-free capability segment never looks like
/// the `$meta` marker.
proof fn lemma_cap_not_meta(capability: Seq<char>, tail: Seq<char>)
    requires
        seg_wf(capability),
        capability != "$meta"@,
    ensures
        capability + seq!['/'] + tail != "$meta"@,
        !((capability + seq!['/'] + tail).len() >= 6 && (capability + seq!['/'] + tail).take(6)
            == "$meta/"@),
{
    reveal_strlit("$meta");
    reveal_strlit("$meta/");
    lemma_first_slash(capability);
    let r2 = capability + seq!['/'] + tail;
    let cl = capability.len() as int;
    assert(r2[cl] == '/');
    assert("$meta"@[0] != '/' && "$meta"@[1] != '/' && "$meta"@[2] != '/' && "$meta"@[3] != '/'
        && "$meta"@[4] != '/');
    assert("$meta/"@[0] != '/' && "$meta/"@[1] != '/' && "$meta/"@[2] != '/' && "$meta/"@[3] != '/'
        && "$meta/"@[4] != '/');
    if r2 == "$meta"@ {
        assert(r2.len() == 5);
        assert(1 <= cl <= 4);
        assert("$meta"@[cl] == '/');
        assert(false);
    }
    if r2.len() >= 6 && r2.take(6) == "$meta/"@ {
        if cl >= 6 {
            assert(r2.take(6)[5] == capability[5]);
            assert(capability[5] == '/');
            assert(false);
        } else if cl == 5 {
            assert forall|m: int| 0 <= m < 5 implies capability[m] == "$meta"@[m] by {
                assert(r2.take(6)[m] == capability[m]);
            }
            assert(capability =~= "$meta"@);
            assert(false);
        } else {
            assert(r2.take(6)[cl] == '/');
            assert("$meta/"@[cl] == '/');
            assert(false);
        }
    }
}

/// Topic round-trip, wire side: any string that parses formats back to
/// itself, character for character.
pub proof fn lemma_topic_format_parse(s: Seq<char>)
    requires
        spec_parse(s) is Ok,
    ensures
        spec_format(spec_parse(s)->Ok_0) == s,
{
    reveal_strlit("tanuki/entities/");
    reveal_strlit("$meta");
    reveal_strlit("$meta/");
    reveal_strlit("/$meta/");
    assert("/$meta/"@ =~= seq!['/'] + "$meta/"@);
    let r1 = s.skip(16);
    lemma_first_slash(r1);
    let i = first_slash(r1);
    let entity = r1.take(i);
    let r2 = r1.skip(i + 1);
    assert(s =~= s.take(16) + r1);
    assert(r1 =~= entity + seq![r1[i]] + r2);
    assert(r1[i] == '/');
    if r2.len() >= 6 && r2.take(6) == "$meta/"@ && r2 != "$meta"@ {
        // the entity-meta shape
        let key = r2.skip(6);
        assert(r2 =~= r2.take(6) + key);
        assert(spec_format(spec_parse(s)->Ok_0) =~= s);
    } else {
        lemma_first_slash(r2);
        let j = first_slash(r2);
        let capability = r2.take(j);
        let r3 = r2.skip(j + 1);
        assert(r2 =~= capability + seq![r2[j]] + r3);
        assert(r2[j] == '/');
        if r3.len() >= 6 && r3.take(6) == "$meta/"@ && r3 != "$meta"@ {
            let key = r3.skip(6);
            assert(r3 =~= r3.take(6) + key);
            assert(spec_format(spec_parse(s)->Ok_0) =~= s);
        } else {
            assert(spec_format(spec_parse(s)->Ok_0) =~= s);
        }
    }
}

/// Topic round-trip: parsing the wire form of a well-formed topic gives the
/// topic back, for all three shapes, even when `rest` contains `/`.
pub proof fn lemma_topic_round_trip(t: TopicV)
    requires
        topic_wf(t),
    ensures
        spec_parse(spec_format(t)) == Ok::<TopicV, TopicErr>(t),
{
    reveal_strlit("tanuki/entities/");
    reveal_strlit("$meta");
    reveal_strlit("$meta/");
    reveal_strlit("/$meta/");
    let s = spec_format(t);
    match t {
        TopicV::EntityMeta { entity, key } => {
            lemma_first_slash(entity);
            let tail = "$meta/"@ + key;
            assert(s =~= "tanuki/entities/"@ + (entity + seq!['/'] + tail));
            assert(s.take(16) =~= "tanuki/entities/"@);
            let r1 = s.skip(16);
            assert(r1 =~= entity + seq!['/'] + tail);
            lemma_first_slash_concat(entity, tail);
            let i = first_slash(r1);
            assert(i == entity.len());
            assert(r1.take(i) =~= entity);
            let r2 = r1.skip(i + 1);
            assert(r2 =~= tail);
            assert(r2.len() == 6 + key.len());
            assert(r2 != "$meta"@);
            assert(r2.take(6) =~= "$meta/"@);
            assert(r2.skip(6) =~= key);
        },
        TopicV::CapabilityMeta { entity, capability, key } => {
            lemma_first_slash(entity);
            lemma_first_slash(capability);
            let tail2 = "$meta/"@ + key;
            let tail = capability + seq!['/'] + tail2;
            assert(s =~= "tanuki/entities/"@ + (entity + seq!['/'] + tail));
            assert(s.take(16) =~= "tanuki/entities/"@);
            let r1 = s.skip(16);
            assert(r1 =~= entity + seq!['/'] + tail);
            lemma_first_slash_concat(entity, tail);
            let i = first_slash(r1);
            assert(i == entity.len());
            assert(r1.take(i) =~= entity);
            let r2 = r1.skip(i + 1);
            assert(r2 =~= tail);
            lemma_cap_not_meta(capability, tail2);
            lemma_first_slash_concat(capability, tail2);
            let j = first_slash(r2);
            assert(j == capability.len());
            assert(r2.take(j) =~= capability);
            let r3 = r2.skip(j + 1);
            assert(r3 =~= tail2);
            assert(r3.len() == 6 + key.len());
            assert(r3 != "$meta"@);
            assert(r3.take(6) =~= "$meta/"@);
            assert(r3.skip(6) =~= key);
        },
        TopicV::CapabilityData { entity, capability, rest } => {
            lemma_first_slash(entity);
            lemma_first_slash(capability);
            let tail = capability + seq!['/'] + rest;
            assert(s =~= "tanuki/entities/"@ + (entity + seq!['/'] + tail));
            assert(s.take(16) =~= "tanuki/entities/"@);
            let r1 = s.skip(16);
            assert(r1 =~= entity + seq!['/'] + tail);
            lemma_first_slash_concat(entity, tail);
            let i = first_slash(r1);
            assert(i == entity.len());
            assert(r1.take(i) =~= entity);
            let r2 = r1.skip(i + 1);
            assert(r2 =~= tail);
            lemma_cap_not_meta(capability, rest);
            lemma_first_slash_concat(capability, rest);
            let j = first_slash(r2);
            assert(j == capability.len());
            assert(r2.take(j) =~= capability);
            let r3 = r2.skip(j + 1);
            assert(r3 =~= rest);
        },
    }
}

} // verus!
