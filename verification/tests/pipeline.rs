use qdrant_client::qdrant::{Condition, Filter};
use semantic_index::embedding::{embed, Embedding};
use semantic_index::error::{settle, ErrorKind, Operation};
use semantic_index::pipeline::{
    is_ranked, search, upsert, upsert_point, ScoredResult, SearchRequest, UpsertRequest,
};
use semantic_index::point::{
    payload_for, DocumentPoint, Field, Payload, DATETIME_FIELD, TEXT_FIELD, TIMESTAMP_PATTERN,
};

fn vector(values: &[f32]) -> Embedding {
    Embedding { bits: values.iter().map(|v| v.to_bits()).collect() }
}

fn floats(embedding: &Embedding) -> Vec<f32> {
    embedding.bits.iter().map(|b| f32::from_bits(*b)).collect()
}

fn hit(id: &str, score: f32, text: &str) -> ScoredResult {
    ScoredResult {
        id: id.to_string(),
        score_bits: score.to_bits(),
        payload: payload_for(text, "2024-01-02T03:04:05.678".to_string()),
        vector: None,
    }
}

/// A stand-in for the engine: three known sentences, three known vectors.
fn encode(text: &str) -> Result<Vec<Embedding>, String> {
    match text {
        "A man is eating food." => Ok(vec![vector(&[0.9, 0.1, 0.0])]),
        "A man is eating pasta." => Ok(vec![vector(&[0.8, 0.2, 0.1])]),
        "A woman is playing violin." => Ok(vec![vector(&[0.0, 0.1, 0.9])]),
        _ => Err("unknown sentence".to_string()),
    }
}

fn cosine(a: &[f32], b: &[f32]) -> f32 {
    let dot: f32 = a.iter().zip(b).map(|(x, y)| x * y).sum();
    let norm_a: f32 = a.iter().map(|x| x * x).sum::<f32>().sqrt();
    let norm_b: f32 = b.iter().map(|x| x * x).sum::<f32>().sqrt();
    dot / (norm_a * norm_b)
}

/// A stand-in for one collection of the store.
struct Collection {
    dimension: usize,
    points: Vec<DocumentPoint>,
}

impl Collection {
    fn write(&mut self, request: UpsertRequest) -> Result<(), String> {
        if request.points.iter().any(|point| point.vector.len() != self.dimension) {
            return Err("dimension mismatch".to_string());
        }
        for point in request.points {
            self.points.retain(|held| held.id != point.id);
            self.points.push(point);
        }
        Ok(())
    }

    fn answer(&self, request: &SearchRequest) -> Result<Vec<ScoredResult>, String> {
        let query = floats(&request.vector);
        let mut hits: Vec<ScoredResult> = self
            .points
            .iter()
            .map(|point| ScoredResult {
                id: point.id.clone(),
                score_bits: cosine(&query, &floats(&point.vector)).to_bits(),
                payload: point.payload.clone(),
                vector: if request.with_vectors { Some(point.vector.clone()) } else { None },
            })
            .collect();
        hits.sort_by(|a, b| {
            f32::from_bits(b.score_bits).partial_cmp(&f32::from_bits(a.score_bits)).unwrap()
        });
        hits.truncate(request.limit as usize);
        Ok(hits)
    }
}

fn is_lower_hex(c: char) -> bool {
    c.is_ascii_digit() || ('a'..='f').contains(&c)
}

#[test]
fn upsert_builds_one_point_with_text_and_vector() {
    let embedding = vector(&[0.5, 0.25]);
    let text = "A man is eating food.".to_string();
    let request = upsert("collection_name", &text, Ok(vec![embedding.clone()])).unwrap();
    assert_eq!(request.collection, "collection_name");
    assert_eq!(request.points.len(), 1);
    assert_eq!(request.points[0].vector, embedding);
    assert_eq!(request.points[0].payload.fields.len(), 2);
    assert_eq!(request.points[0].payload.get(TEXT_FIELD), Some(&text));
    assert!(request.points[0].payload.get(DATETIME_FIELD).is_some());
}

#[test]
fn upsert_point_is_exact() {
    let embedding = vector(&[1.0, 2.0, 3.0]);
    let text = "The girl is carrying a baby.".to_string();
    let request = upsert_point(
        "c",
        &text,
        embedding.clone(),
        "67e55044-10b1-426f-9247-bb680e5fe0c8".to_string(),
        "2024-01-02T03:04:05.678".to_string(),
    );
    assert_eq!(
        request,
        UpsertRequest {
            collection: "c".to_string(),
            points: vec![DocumentPoint {
                id: "67e55044-10b1-426f-9247-bb680e5fe0c8".to_string(),
                vector: embedding,
                payload: Payload {
                    fields: vec![
                        Field { name: "text".to_string(), value: text.clone() },
                        Field {
                            name: "datetime".to_string(),
                            value: "2024-01-02T03:04:05.678".to_string(),
                        },
                    ],
                },
            }],
        }
    );
}

#[test]
fn upsert_id_is_a_random_uuid() {
    let text = "A monkey is playing drums.".to_string();
    let request = upsert("c", &text, Ok(vec![vector(&[0.0])])).unwrap();
    let id: Vec<char> = request.points[0].id.chars().collect();
    assert_eq!(id.len(), 36);
    for (i, c) in id.iter().enumerate() {
        if i == 8 || i == 13 || i == 18 || i == 23 {
            assert_eq!(*c, '-');
        } else {
            assert!(is_lower_hex(*c));
        }
    }
    assert_eq!(id[14], '4');
    assert!(matches!(id[19], '8' | '9' | 'a' | 'b'));
}

#[test]
fn upsert_datetime_has_the_layout() {
    let text = "A cheetah is running behind its prey.".to_string();
    let request = upsert("c", &text, Ok(vec![vector(&[0.0])])).unwrap();
    let stamp = request.points[0].payload.get(DATETIME_FIELD).unwrap();
    assert_ne!(stamp, TIMESTAMP_PATTERN);
    let chars: Vec<char> = stamp.chars().collect();
    assert_eq!(chars.len(), 23);
    for (i, c) in chars.iter().enumerate() {
        match i {
            4 | 7 => assert_eq!(*c, '-'),
            10 => assert_eq!(*c, 'T'),
            13 | 16 => assert_eq!(*c, ':'),
            19 => assert_eq!(*c, '.'),
            _ => assert!(c.is_ascii_digit()),
        }
    }
    let year: u32 = stamp[0..4].parse().unwrap();
    assert!(year >= 1970);
}

#[test]
fn upsert_of_the_same_text_twice_gives_two_points() {
    let text = "A man is riding a horse.".to_string();
    let first = upsert("c", &text, Ok(vec![vector(&[0.5, 0.5])])).unwrap();
    let second = upsert("c", &text, Ok(vec![vector(&[0.5, 0.5])])).unwrap();
    assert_ne!(first.points[0].id, second.points[0].id);
    assert_eq!(first.points[0].vector, second.points[0].vector);

    let mut collection = Collection { dimension: 2, points: Vec::new() };
    let kept = first.points[0].clone();
    assert_eq!(settle(Operation::Upsert, "c", collection.write(first)), Ok(()));
    assert_eq!(settle(Operation::Upsert, "c", collection.write(second)), Ok(()));
    assert_eq!(collection.points.len(), 2);
    assert_eq!(collection.points[0], kept);
}

#[test]
fn upsert_keeps_the_dimension() {
    let components: Vec<f32> = (0..384).map(|i| (i as f32).sin()).collect();
    let text = "Two men pushed carts through the woods.".to_string();
    let request = upsert("c", &text, Ok(vec![vector(&components)])).unwrap();
    assert_eq!(request.points[0].vector.len(), 384);
    assert_eq!(floats(&request.points[0].vector), components);

    let mut collection = Collection { dimension: 384, points: Vec::new() };
    assert_eq!(settle(Operation::Upsert, "c", collection.write(request)), Ok(()));
    assert!(collection.points.iter().all(|point| point.vector.len() == collection.dimension));
}

#[test]
fn upsert_of_another_dimension_is_write_failed() {
    let text = "A man is eating a piece of bread.".to_string();
    let request = upsert("c", &text, Ok(vec![vector(&[0.1, 0.2, 0.3])])).unwrap();
    let mut collection = Collection { dimension: 384, points: Vec::new() };
    let error = settle(Operation::Upsert, "c", collection.write(request)).unwrap_err();
    assert_eq!(error.kind, ErrorKind::WriteFailed);
    assert_eq!(error.cause, "dimension mismatch");
    assert!(collection.points.is_empty());
}

#[test]
fn upsert_uses_the_first_vector_of_the_answer() {
    let text = "A man is riding a white horse on an enclosed ground.".to_string();
    let answer = vec![vector(&[0.1, 0.2]), vector(&[0.3, 0.4])];
    let request = upsert("c", &text, Ok(answer)).unwrap();
    assert_eq!(request.points.len(), 1);
    assert_eq!(request.points[0].vector, vector(&[0.1, 0.2]));
}

#[test]
fn upsert_without_an_embedding_is_model_error() {
    let text = "A man is eating food.".to_string();
    let error = upsert("c", &text, Err("inference failed".to_string())).unwrap_err();
    assert_eq!(error.kind, ErrorKind::ModelError);
    assert_eq!(error.operation, Operation::Embed);
    assert_eq!(error.cause, "inference failed");

    let error = upsert("c", &text, Ok(vec![])).unwrap_err();
    assert_eq!(error.kind, ErrorKind::ModelError);
    assert_eq!(error.cause, "the engine returned no vector");
}

#[test]
fn search_without_an_embedding_is_model_error() {
    let error = search("c", Err("inference failed".to_string()), 5, None).unwrap_err();
    assert_eq!(error.kind, ErrorKind::ModelError);
    assert_eq!(error.operation, Operation::Embed);
    assert_eq!(error.cause, "inference failed");

    let error = search("c", Ok(vec![]), 5, None).unwrap_err();
    assert_eq!(error.kind, ErrorKind::ModelError);
    assert_eq!(error.cause, "the engine returned no vector");
}

#[test]
fn search_uses_the_first_vector_of_the_answer() {
    let answer = vec![vector(&[0.1, 0.2]), vector(&[0.3, 0.4])];
    let request = search("c", Ok(answer), 3, None).unwrap();
    assert_eq!(request.vector, vector(&[0.1, 0.2]));
}

#[test]
fn search_asks_for_payload_and_vectors() {
    let embedding = vector(&[7.0, 8.0]);
    let request = search("c", Ok(vec![embedding.clone()]), 5, None).unwrap();
    assert_eq!(
        request,
        SearchRequest {
            collection: "c".to_string(),
            vector: embedding,
            limit: 5,
            filter: None,
            with_payload: true,
            with_vectors: true,
        }
    );
}

#[test]
fn search_hands_the_filter_on() {
    let filter = Filter::must([Condition::matches("text", "A man is eating food.".to_string())]);
    let request = search("c", Ok(vec![vector(&[1.0])]), u64::MAX, Some(filter.clone())).unwrap();
    assert_eq!(request.filter, Some(filter));
    assert_eq!(request.limit, u64::MAX);
}

#[test]
fn empty_collection_query_is_empty_not_an_error() {
    let collection = Collection { dimension: 3, points: Vec::new() };
    let request = search("c", Ok(vec![vector(&[0.3, 0.2, 0.1])]), 5, None).unwrap();
    let results = settle(Operation::Query, "c", collection.answer(&request));
    assert_eq!(results, Ok(vec![]));
}

#[test]
fn limit_beyond_the_points_returns_them_all() {
    let mut collection = Collection { dimension: 3, points: Vec::new() };
    for text in ["A man is eating food.", "A woman is playing violin."] {
        let request = upsert("c", &text.to_string(), encode(text)).unwrap();
        collection.write(request).unwrap();
    }
    let request = search("c", encode("A man is eating pasta."), 5, None).unwrap();
    let results = settle(Operation::Query, "c", collection.answer(&request)).unwrap();
    assert_eq!(results.len(), 2);
    assert!(is_ranked(&results));
}

#[test]
fn results_keep_the_stores_order() {
    let reply = vec![hit("a", 0.9, "first"), hit("b", 0.5, "second"), hit("c", 0.1, "third")];
    let results = settle(Operation::Query, "c", Ok(reply.clone())).unwrap();
    assert_eq!(results, reply);
    assert!(is_ranked(&results));
    let scores: Vec<f32> = results.iter().map(|r| f32::from_bits(r.score_bits)).collect();
    assert_eq!(scores, vec![0.9, 0.5, 0.1]);
}

#[test]
fn is_ranked_wants_descending_scores() {
    assert!(is_ranked(&vec![]));
    assert!(is_ranked(&vec![hit("a", 0.3, "only")]));
    assert!(is_ranked(&vec![hit("a", 0.5, "x"), hit("b", 0.5, "y")]));
    assert!(is_ranked(&vec![hit("a", 1.0, "x"), hit("b", 0.0, "y"), hit("c", -1.0, "z")]));
    assert!(is_ranked(&vec![hit("a", -0.1, "x"), hit("b", -0.2, "y"), hit("c", -0.7, "z")]));
    assert!(is_ranked(&vec![hit("a", 0.0, "x"), hit("b", -0.0, "y"), hit("c", 0.0, "z")]));
    assert!(!is_ranked(&vec![hit("a", 0.1, "x"), hit("b", 0.5, "y"), hit("c", 0.9, "z")]));
    assert!(!is_ranked(&vec![hit("a", 0.9, "x"), hit("b", 0.1, "y"), hit("c", 0.5, "z")]));
    assert!(!is_ranked(&vec![hit("a", -0.7, "x"), hit("b", -0.2, "y")]));
    assert!(!is_ranked(&vec![hit("a", -0.1, "x"), hit("b", 0.1, "y")]));
}

#[test]
fn round_trip_scenario() {
    let mut collection = Collection { dimension: 3, points: Vec::new() };
    for text in ["A man is eating food.", "A woman is playing violin."] {
        let request = upsert("collection_name", &text.to_string(), encode(text)).unwrap();
        assert_eq!(settle(Operation::Upsert, "collection_name", collection.write(request)), Ok(()));
    }

    let query = encode("A man is eating pasta.");
    let request = search("collection_name", query.clone(), 1, None).unwrap();
    assert_eq!(Ok(request.vector.clone()), embed(query.clone()));
    let results =
        settle(Operation::Query, "collection_name", collection.answer(&request)).unwrap();
    assert_eq!(results.len(), 1);
    assert_eq!(
        results[0].payload.get(TEXT_FIELD),
        Some(&"A man is eating food.".to_string())
    );
    assert_eq!(results[0].vector, Some(vector(&[0.9, 0.1, 0.0])));

    let all = search("collection_name", query, 5, None).unwrap();
    let ranked = settle(Operation::Query, "collection_name", collection.answer(&all)).unwrap();
    assert_eq!(ranked.len(), 2);
    assert_eq!(
        ranked[1].payload.get(TEXT_FIELD),
        Some(&"A woman is playing violin.".to_string())
    );
    assert!(f32::from_bits(results[0].score_bits) > f32::from_bits(ranked[1].score_bits));
}

#[test]
fn payload_for_sets_text_and_datetime() {
    let payload = payload_for("A man is eating food.", "2024-01-02T03:04:05.678".to_string());
    assert_eq!(
        payload,
        Payload {
            fields: vec![
                Field { name: "text".to_string(), value: "A man is eating food.".to_string() },
                Field { name: "datetime".to_string(), value: "2024-01-02T03:04:05.678".to_string() },
            ],
        }
    );
    assert_eq!(TEXT_FIELD, "text");
    assert_eq!(DATETIME_FIELD, "datetime");
}

#[test]
fn payload_get_finds_a_field_by_name() {
    let payload = payload_for("some text", "2024-01-02T03:04:05.678".to_string());
    assert_eq!(payload.get("text"), Some(&"some text".to_string()));
    assert_eq!(payload.get("datetime"), Some(&"2024-01-02T03:04:05.678".to_string()));
    assert_eq!(payload.get("author"), None);
    assert_eq!(payload.get(""), None);
    assert_eq!(Payload { fields: vec![] }.get("text"), None);
}

#[test]
fn payload_get_takes_the_later_entry() {
    let payload = Payload {
        fields: vec![
            Field { name: "text".to_string(), value: "old".to_string() },
            Field { name: "other".to_string(), value: "x".to_string() },
            Field { name: "text".to_string(), value: "new".to_string() },
        ],
    };
    assert_eq!(payload.get("text"), Some(&"new".to_string()));
    assert_eq!(payload.get("other"), Some(&"x".to_string()));
}
