use bulletin_board::post::{fill, Post, DEFAULT_AUTHOR, DEFAULT_CONTENT, DEFAULT_TITLE};
use bulletin_board::store::PostStore;

fn some(text: &str) -> Option<String> {
    Some(text.to_string())
}

fn filled_store(n: usize) -> PostStore {
    let mut store = PostStore::new();
    let mut i: usize = 0;
    while i < n {
        i += 1;
        store.append_at(
            some(&format!("title {}", i)),
            some(&format!("author {}", i)),
            some(&format!("content {}", i)),
            format!("2024-01-01 10:{:02}", i),
        );
    }
    store
}

#[test]
fn default_texts_are_the_given_ones() {
    assert_eq!(DEFAULT_TITLE, "제목 없음");
    assert_eq!(DEFAULT_AUTHOR, "익명");
    assert_eq!(DEFAULT_CONTENT, "");
}

#[test]
fn fill_keeps_what_was_given() {
    assert_eq!(fill(some("kept"), "default"), "kept");
    assert_eq!(fill(some(" "), "default"), " ");
}

#[test]
fn fill_gives_the_default_for_nothing_and_for_empty() {
    assert_eq!(fill(None, "default"), "default");
    assert_eq!(fill(some(""), "default"), "default");
    assert_eq!(fill(None, ""), "");
}

#[test]
fn a_new_store_is_empty() {
    let store = PostStore::new();
    assert_eq!(store.len(), 0);
    assert!(store.list_newest_first().is_empty());
    assert_eq!(store.find_by_id(0), None);
    assert_eq!(store.find_by_id(1), None);
    assert_eq!(PostStore::default().len(), 0);
}

#[test]
fn append_at_hands_back_the_post_it_stored() {
    let mut store = PostStore::new();
    let post = store.append_at(
        some("Hello"),
        some("Ann"),
        some("line1\nline2"),
        "2024-03-05 09:07".to_string(),
    );
    let expected = Post {
        id: 1,
        title: "Hello".to_string(),
        author: "Ann".to_string(),
        content: "line1\nline2".to_string(),
        date: "2024-03-05 09:07".to_string(),
    };
    assert_eq!(post, expected);
    assert_eq!(store.len(), 1);
    assert_eq!(store.find_by_id(1), Some(&expected));
}

#[test]
fn identifiers_count_up_from_one() {
    let mut store = PostStore::new();
    let mut n: usize = 0;
    while n < 25 {
        let post = store.append_at(None, None, None, "d".to_string());
        n += 1;
        assert_eq!(post.id, n);
        assert_eq!(store.len(), n);
    }
}

#[test]
fn newest_first_is_the_reverse_of_creation_order() {
    let store = filled_store(5);
    let list = store.list_newest_first();
    let ids: Vec<usize> = list.iter().map(|p| p.id).collect();
    assert_eq!(ids, vec![5, 4, 3, 2, 1]);
    assert_eq!(list[0].title, "title 5");
    assert_eq!(list[4].title, "title 1");
    assert_eq!(list[2].date, "2024-01-01 10:03");
}

#[test]
fn listing_is_a_copy_and_leaves_the_store_alone() {
    let store = filled_store(3);
    let mut list = store.list_newest_first();
    list[0].title = "changed".to_string();
    list.clear();
    assert_eq!(store.len(), 3);
    assert_eq!(store.find_by_id(3).map(|p| p.title.as_str()), Some("title 3"));
    assert_eq!(store.list_newest_first().len(), 3);
}

#[test]
fn find_by_id_finds_each_post_and_nothing_else() {
    let n: usize = 12;
    let store = filled_store(n);
    let mut k: usize = 1;
    while k <= n {
        let post = store.find_by_id(k).expect("a post for each identifier");
        assert_eq!(post.id, k);
        assert_eq!(post.title, format!("title {}", k));
        assert_eq!(post.author, format!("author {}", k));
        assert_eq!(post.content, format!("content {}", k));
        k += 1;
    }
    assert_eq!(store.find_by_id(0), None);
    assert_eq!(store.find_by_id(n + 1), None);
    assert_eq!(store.find_by_id(usize::MAX), None);
}

#[test]
fn missing_fields_get_their_defaults() {
    let mut store = PostStore::new();
    let post = store.append_at(None, None, None, "2024-01-01 00:00".to_string());
    assert_eq!(post.title, "제목 없음");
    assert_eq!(post.author, "익명");
    assert_eq!(post.content, "");
    assert_eq!(post.date, "2024-01-01 00:00");
}

#[test]
fn empty_fields_get_their_defaults() {
    let mut store = PostStore::new();
    let post = store.append_at(some(""), some(""), some(""), "d".to_string());
    assert_eq!(post.title, "제목 없음");
    assert_eq!(post.author, "익명");
    assert_eq!(post.content, "");
}

#[test]
fn each_field_is_filled_on_its_own() {
    let mut store = PostStore::new();
    let a = store.append_at(some("T"), None, None, "d".to_string());
    assert_eq!((a.title.as_str(), a.author.as_str(), a.content.as_str()), ("T", "익명", ""));
    let b = store.append_at(None, some("A"), some(""), "d".to_string());
    assert_eq!((b.title.as_str(), b.author.as_str(), b.content.as_str()), ("제목 없음", "A", ""));
    let c = store.append_at(some(""), None, some("C"), "d".to_string());
    assert_eq!((c.title.as_str(), c.author.as_str(), c.content.as_str()), ("제목 없음", "익명", "C"));
}

#[test]
fn earlier_posts_do_not_change_when_more_are_added() {
    let mut store = filled_store(2);
    let first = store.find_by_id(1).cloned();
    let second = store.find_by_id(2).cloned();
    store.append_at(some("later"), None, None, "d".to_string());
    assert_eq!(store.find_by_id(1).cloned(), first);
    assert_eq!(store.find_by_id(2).cloned(), second);
}

#[test]
fn append_stamps_the_post_to_the_minute() {
    let mut store = PostStore::new();
    let post = store.append(some("now"), None, None);
    assert_eq!(post.id, 1);
    assert_eq!(post.title, "now");
    assert_eq!(post.author, "익명");
    let date: Vec<char> = post.date.chars().collect();
    assert!(date.len() >= 16);
    let tail = &date[date.len() - 16..];
    for (i, c) in tail.iter().enumerate() {
        match i {
            4 | 7 => assert_eq!(*c, '-'),
            10 => assert_eq!(*c, ' '),
            13 => assert_eq!(*c, ':'),
            _ => assert!(c.is_ascii_digit()),
        }
    }
    let month: u32 = tail[5..7].iter().collect::<String>().parse().unwrap();
    let day: u32 = tail[8..10].iter().collect::<String>().parse().unwrap();
    let hour: u32 = tail[11..13].iter().collect::<String>().parse().unwrap();
    let minute: u32 = tail[14..16].iter().collect::<String>().parse().unwrap();
    assert!((1..=12).contains(&month));
    assert!((1..=31).contains(&day));
    assert!(hour < 24);
    assert!(minute < 60);
    assert_eq!(store.find_by_id(1), Some(&post));
}

#[test]
fn append_numbers_like_append_at() {
    let mut store = PostStore::new();
    store.append_at(None, None, None, "d".to_string());
    let second = store.append(None, None, some("text"));
    let third = store.append_at(None, None, None, "d".to_string());
    assert_eq!(second.id, 2);
    assert_eq!(third.id, 3);
    assert_eq!(store.len(), 3);
}

#[test]
fn a_copy_of_a_post_equals_it() {
    let post = Post {
        id: 3,
        title: "t".to_string(),
        author: "a".to_string(),
        content: "c".to_string(),
        date: "d".to_string(),
    };
    let copy = post.clone();
    assert_eq!(copy, post);
    let other = Post { id: 4, ..post.clone() };
    assert_ne!(other, post);
    let retitled = Post { title: "u".to_string(), ..post.clone() };
    assert_ne!(retitled, post);
}
