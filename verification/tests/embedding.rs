use log_anomaly::config::Config;
use log_anomaly::embedding::{
    embedding_from_reply, embedding_request, EmbedReply, Embedding, EmbeddingError,
};

fn small() -> Config {
    let mut config = Config::default();
    config.vector_size = 4;
    config
}

fn bits(components: &[f32]) -> Vec<u32> {
    components.iter().map(|x| x.to_bits()).collect()
}

#[test]
fn request_names_the_model_and_the_text() {
    let request = embedding_request(&Config::default(), "INFO: started");
    assert_eq!(request.endpoint, "http://localhost:11434/api/embeddings");
    assert_eq!(request.model, "bge-m3");
    assert_eq!(request.prompt, "INFO: started");

    let mut config = Config::default();
    config.embedding_model = "other".to_string();
    config.embedding_endpoint = "http://elsewhere:1/embed".to_string();
    let request = embedding_request(&config, "a \"quoted\" line\n");
    assert_eq!(request.endpoint, "http://elsewhere:1/embed");
    assert_eq!(request.model, "other");
    assert_eq!(request.prompt, "a \"quoted\" line\n");
}

#[test]
fn vector_of_the_configured_size_is_accepted() {
    let components = bits(&[0.5, -0.5, 0.5, 0.5]);
    let reply = EmbedReply::Answered { status: 200, embedding: Some(components.clone()) };
    let embedding = embedding_from_reply(&small(), reply).unwrap();
    assert_eq!(embedding, Embedding { components: components.clone() });
    assert_eq!(embedding.dimension(), 4);
    assert_eq!(embedding.dimension() as u64, small().vector_size);
}

#[test]
fn default_size_is_1024() {
    let config = Config::default();
    let reply = EmbedReply::Answered { status: 200, embedding: Some(vec![0; 1024]) };
    assert_eq!(embedding_from_reply(&config, reply).unwrap().dimension(), 1024);
    let reply = EmbedReply::Answered { status: 200, embedding: Some(vec![0; 1023]) };
    assert_eq!(embedding_from_reply(&config, reply), Err(EmbeddingError::Shape));
    let reply = EmbedReply::Answered { status: 200, embedding: Some(vec![0; 1025]) };
    assert_eq!(embedding_from_reply(&config, reply), Err(EmbeddingError::Shape));
}

#[test]
fn vector_of_another_size_is_a_shape_error() {
    for n in [0usize, 1, 3, 5, 1024] {
        let reply = EmbedReply::Answered { status: 200, embedding: Some(vec![0; n]) };
        assert_eq!(embedding_from_reply(&small(), reply), Err(EmbeddingError::Shape), "{}", n);
    }
}

#[test]
fn no_answer_is_unreachable() {
    assert_eq!(
        embedding_from_reply(&small(), EmbedReply::Unreachable),
        Err(EmbeddingError::Unreachable)
    );
}

#[test]
fn failure_status_is_a_protocol_error() {
    for status in [0u16, 100, 199, 300, 301, 400, 404, 500, 503, 65535] {
        let reply = EmbedReply::Answered { status, embedding: Some(vec![0; 4]) };
        assert_eq!(embedding_from_reply(&small(), reply), Err(EmbeddingError::Protocol));
        let reply = EmbedReply::Answered { status, embedding: None };
        assert_eq!(embedding_from_reply(&small(), reply), Err(EmbeddingError::Protocol));
        let reply = EmbedReply::Answered { status, embedding: Some(vec![0; 3]) };
        assert_eq!(embedding_from_reply(&small(), reply), Err(EmbeddingError::Protocol));
    }
}

#[test]
fn every_success_status_is_accepted() {
    for status in [200u16, 201, 204, 250, 299] {
        let reply = EmbedReply::Answered { status, embedding: Some(vec![7; 4]) };
        assert_eq!(
            embedding_from_reply(&small(), reply),
            Ok(Embedding { components: vec![7; 4] })
        );
    }
}

#[test]
fn body_without_embedding_is_a_protocol_error() {
    let reply = EmbedReply::Answered { status: 200, embedding: None };
    assert_eq!(embedding_from_reply(&small(), reply), Err(EmbeddingError::Protocol));
}
