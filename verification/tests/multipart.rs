use tome::multipart::multipart_body;

fn boundary_of(content_type: &str) -> String {
    let prefix = "multipart/form-data; boundary=---------------------------";
    assert!(content_type.starts_with(prefix));
    content_type[prefix.len()..].to_string()
}

#[test]
fn multipart_body_lays_out_the_fields() {
    let fields = vec![("a".to_string(), "1".to_string()), ("name".to_string(), "héllo".to_string())];
    let (content_type, data) = multipart_body(&fields).unwrap();
    let boundary = boundary_of(&content_type);
    assert_eq!(boundary.len(), 29);
    assert!(boundary.chars().all(|c| c.is_ascii_digit()));
    let delimiter = format!("-----------------------------{boundary}");
    let expected = format!(
        "{delimiter}\r\nContent-Disposition: form-data; name=\"a\"\r\n\r\n1\r\n\
         {delimiter}\r\nContent-Disposition: form-data; name=\"name\"\r\n\r\nhéllo\r\n\
         {delimiter}--\r\n"
    );
    assert_eq!(String::from_utf8(data).unwrap(), expected);
}

#[test]
fn empty_multipart_body_only_closes() {
    let (content_type, data) = multipart_body(&vec![]).unwrap();
    let boundary = boundary_of(&content_type);
    assert_eq!(String::from_utf8(data).unwrap(), format!("-----------------------------{boundary}--\r\n"));
}
