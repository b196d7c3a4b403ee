use lemmy_client::{
    ClientOptions, LemmyClient, LemmyError, LemmyForm, LemmyRequest, Method, OutgoingRequest,
    RequestBody,
};

struct Sample;

impl LemmyForm for Sample {
    fn to_query(&self) -> Result<String, String> {
        Ok("k=v".to_string())
    }

    fn to_json(&self) -> Result<String, String> {
        Ok("{\"k\":\"v\"}".to_string())
    }
}

fn client() -> LemmyClient {
    LemmyClient::new(ClientOptions { domain: "lemmy.ml".to_string(), secure: true })
}

fn form() -> LemmyRequest<'static, Sample> {
    LemmyRequest { body: Sample, jwt: Some("jwt") }
}

fn unit() -> LemmyRequest<'static, ()> {
    LemmyRequest::from_jwt(Some("jwt"))
}

fn file() -> LemmyRequest<'static, &'static [u8]> {
    LemmyRequest { body: &[1, 2, 3], jwt: Some("jwt") }
}

fn sent(
    outcome: Result<OutgoingRequest, LemmyError>,
    method: Method,
    path: &str,
    query: &str,
    body: RequestBody,
) {
    let planned = outcome.unwrap();
    assert_eq!(planned.method, method);
    assert_eq!(planned.route, format!("https://lemmy.ml/api/v4/{path}"));
    assert_eq!(planned.query, query);
    assert_eq!(planned.body, body);
    assert_eq!(planned.headers.get("authorization"), Some("Bearer jwt"));
    assert_eq!(planned.headers.get("user-agent"), Some("Lemmy-Client-rs/1.0.0"));
}

fn with_form(outcome: Result<OutgoingRequest, LemmyError>, method: Method, path: &str) {
    match method {
        Method::Get | Method::Delete => sent(outcome, method, path, "k=v", RequestBody::Empty),
        Method::Post | Method::Put => {
            sent(outcome, method, path, "", RequestBody::Json("{\"k\":\"v\"}".to_string()))
        }
    }
}

fn with_unit(outcome: Result<OutgoingRequest, LemmyError>, method: Method, path: &str) {
    match method {
        Method::Get | Method::Delete => sent(outcome, method, path, "", RequestBody::Empty),
        Method::Post | Method::Put => {
            sent(outcome, method, path, "", RequestBody::Json("null".to_string()))
        }
    }
}

fn with_file(outcome: Result<OutgoingRequest, LemmyError>, path: &str, query: &str) {
    sent(outcome, Method::Post, path, query, RequestBody::Bytes(vec![1, 2, 3]));
}

#[test]
fn account_endpoints_have_their_verbs_and_paths() {
    let client = client();
    with_form(client.register_account(form()), Method::Post, "account/auth/register");
    with_form(client.login(form()), Method::Post, "account/auth/login");
    with_unit(client.logout_request(unit()), Method::Post, "account/auth/logout");
    with_form(client.reset_password(form()), Method::Post, "account/auth/password_reset");
    with_unit(client.get_captcha(unit()), Method::Get, "account/auth/get_captcha");
    with_form(client.change_password_after_reset(form()), Method::Post, "account/auth/password_change");
    with_form(client.change_password(form()), Method::Post, "account/auth/change_password");
    with_unit(client.generate_totp_secret(unit()), Method::Post, "account/auth/totp/generate");
    with_form(client.update_totp(form()), Method::Post, "account/auth/totp/update");
    with_form(client.verify_email(form()), Method::Post, "account/auth/verify_email");
    with_form(client.resend_verification_email(form()), Method::Post, "account/auth/resend_verification_email");
    with_unit(client.get_current_user(unit()), Method::Get, "account");
    with_form(client.delete_image(form()), Method::Delete, "account/media");
    with_form(client.list_media(form()), Method::Get, "account/media/list");
    with_form(client.delete_account(form()), Method::Post, "account/delete");
    with_unit(client.mark_all_notifications_as_read(unit()), Method::Post, "account/mark_as_read/all");
    with_form(client.report_count(form()), Method::Get, "account/report_count");
    with_unit(client.list_logins(unit()), Method::Get, "list_logins");
    with_unit(client.validate_auth(unit()), Method::Get, "account/validate_auth");
    with_unit(client.donation_dialog_shown(unit()), Method::Post, "account/donation_dialog_shown");
    with_form(client.block_person(form()), Method::Post, "account/block/person");
    with_form(client.block_community(form()), Method::Post, "account/block/community");
    with_form(client.user_block_instance_communities(form()), Method::Post, "account/block/instance/communities");
    with_form(client.user_block_instance_users(form()), Method::Post, "account/block/instance/persons");
    with_form(client.list_saved(form()), Method::Get, "account/saved");
    with_form(client.list_read(form()), Method::Get, "account/read");
    with_form(client.list_hidden(form()), Method::Get, "account/hidden");
    with_form(client.list_liked(form()), Method::Get, "account/liked");
    with_form(client.save_user_settings(form()), Method::Put, "account/settings/save");
    with_unit(client.export_settings(unit()), Method::Get, "account/settings/export");
    with_form(client.import_settings(form()), Method::Post, "account/settings/import");
}

#[test]
fn admin_endpoints_have_their_verbs_and_paths() {
    let client = client();
    with_form(client.add_admin(form()), Method::Post, "admin/add");
    with_unit(client.unread_registration_application_count(unit()), Method::Get, "admin/registration_application/count");
    with_form(client.list_registration_applications(form()), Method::Get, "admin/registration_application/list");
    with_form(client.approve_registration_application(form()), Method::Put, "admin/registration_application/approve");
    with_form(client.get_registration_application(form()), Method::Get, "admin/registration_application");
    with_form(client.purge_person(form()), Method::Post, "admin/purge/person");
    with_form(client.purge_community(form()), Method::Post, "admin/purge/community");
    with_form(client.purge_post(form()), Method::Post, "admin/purge/post");
    with_form(client.purge_comment(form()), Method::Post, "admin/purge/Comment");
    with_form(client.create_tagline(form()), Method::Post, "admin/tagline");
    with_form(client.update_tagline(form()), Method::Put, "admin/tagline");
    with_form(client.delete_tagline(form()), Method::Post, "admin/tagline/delete");
    with_form(client.list_taglines(form()), Method::Get, "admin/tagline/list");
    with_form(client.ban_from_site(form()), Method::Post, "admin/ban");
    with_form(client.list_users(form()), Method::Get, "admin/users");
    with_unit(client.leave_admin(unit()), Method::Post, "admin/leave");
    with_form(client.admin_block_instance(form()), Method::Post, "admin/instance/block");
    with_form(client.admin_allow_instance(form()), Method::Post, "admin/instance/allow");
    with_form(client.list_all_media(form()), Method::Get, "image/list");
    with_form(client.delete_image_admin(form()), Method::Delete, "image");
}

#[test]
fn comment_endpoints_have_their_verbs_and_paths() {
    let client = client();
    with_form(client.get_comment(form()), Method::Get, "comment");
    with_form(client.create_comment(form()), Method::Post, "comment");
    with_form(client.edit_comment(form()), Method::Put, "comment");
    with_form(client.delete_comment(form()), Method::Post, "comment/delete");
    with_form(client.remove_comment(form()), Method::Post, "comment/remove");
    with_form(client.distinguish_comment(form()), Method::Post, "comment/distinguish");
    with_form(client.like_comment(form()), Method::Post, "comment/like");
    with_form(client.list_comment_likes(form()), Method::Get, "comment/like/list");
    with_form(client.save_comment(form()), Method::Put, "comment/save");
    with_form(client.list_comments(form()), Method::Get, "comment/list");
    with_form(client.list_comments_slim(form()), Method::Get, "comment/list/slim");
    with_form(client.report_comment(form()), Method::Post, "comment/report");
    with_form(client.resolve_comment_report(form()), Method::Put, "comment/report/resolve");
}

#[test]
fn community_endpoints_have_their_verbs_and_paths() {
    let client = client();
    with_form(client.get_community(form()), Method::Get, "community");
    with_form(client.create_community(form()), Method::Post, "community");
    with_form(client.update_community(form()), Method::Put, "community");
    with_form(client.get_random_community(form()), Method::Get, "community/random");
    with_form(client.list_communities(form()), Method::Get, "community/list");
    with_form(client.follow_community(form()), Method::Post, "community/follow");
    with_form(client.delete_community(form()), Method::Post, "community/delete");
    with_form(client.remove_community(form()), Method::Post, "community/remove");
    with_form(client.transfer_community(form()), Method::Post, "community/transfer");
    with_form(client.ban_from_community(form()), Method::Post, "community/ban_user");
    with_form(client.add_mod_to_community(form()), Method::Post, "community/mod");
    with_file(client.upload_community_icon(Sample, file()), "community/icon", "k=v");
    with_form(client.delete_community_icon(form()), Method::Delete, "community/icon");
    with_file(client.upload_community_banner(Sample, file()), "community/banner", "k=v");
    with_form(client.delete_community_banner(form()), Method::Delete, "community/banner");
    with_form(client.update_community_notifications(form()), Method::Post, "community/notifications");
    with_form(client.get_community_pending_follows_count(form()), Method::Get, "community/pending_follows/count");
    with_form(client.list_community_pending_follows(form()), Method::Get, "community/pending_follows/list");
    with_form(client.approve_community_pending_follow(form()), Method::Post, "community/pending_follows/approve");
    with_form(client.create_multi_community(form()), Method::Post, "multi_community");
    with_form(client.edit_multi_community(form()), Method::Put, "multi_community");
    with_form(client.get_multi_community(form()), Method::Get, "multi_community");
    with_form(client.add_multi_community_entry(form()), Method::Post, "multi_community/entry");
    with_form(client.remove_multi_community_entry(form()), Method::Delete, "multi_community/entry");
    with_form(client.list_multi_communities(form()), Method::Get, "multi_community/list");
    with_form(client.follow_multi_community(form()), Method::Post, "multi_community/follow");
}

#[test]
fn emoji_endpoints_have_their_verbs_and_paths() {
    let client = client();
    with_form(client.create_custom_emoji(form()), Method::Post, "custom_emoji");
    with_form(client.edit_custom_emoji(form()), Method::Put, "custom_emoji");
    with_form(client.delete_custom_emoji(form()), Method::Post, "custom_emoji/delete");
    with_form(client.list_custom_emojis(form()), Method::Get, "custom_emoji/list");
}

#[test]
fn oauth_endpoints_have_their_verbs_and_paths() {
    let client = client();
    with_form(client.add_oauth_provider(form()), Method::Post, "oauth_provider");
    with_form(client.edit_oauth_provider(form()), Method::Put, "oauth_provider");
    with_form(client.delete_oauth_provider(form()), Method::Post, "oauth_provider/delete");
    with_form(client.authenticate_with_oauth(form()), Method::Post, "oauth/authenticate");
}

#[test]
fn person_endpoints_have_their_verbs_and_paths() {
    let client = client();
    with_form(client.get_person_details(form()), Method::Get, "person");
    with_form(client.list_person_content(form()), Method::Get, "person/content");
    with_form(client.create_person_note(form()), Method::Post, "person/note");
}

#[test]
fn post_endpoints_have_their_verbs_and_paths() {
    let client = client();
    with_form(client.get_post(form()), Method::Get, "post");
    with_form(client.create_post(form()), Method::Post, "post");
    with_form(client.edit_post(form()), Method::Put, "post");
    with_form(client.get_linked_site_metadata(form()), Method::Get, "post/site_metadata");
    with_form(client.delete_post(form()), Method::Post, "post/delete");
    with_form(client.remove_post(form()), Method::Post, "post/remove");
    with_form(client.mark_post_as_read(form()), Method::Post, "post/mark_as_read");
    with_form(client.mark_many_posts_as_read(form()), Method::Post, "post/mark_as_read/many");
    with_form(client.hide_post(form()), Method::Post, "post/hide");
    with_form(client.lock_post(form()), Method::Post, "post/lock");
    with_form(client.feature_post(form()), Method::Post, "post/feature");
    with_form(client.list_posts(form()), Method::Get, "post/list");
    with_form(client.like_post(form()), Method::Post, "post/like");
    with_form(client.list_post_likes(form()), Method::Get, "post/like/list");
    with_form(client.save_post(form()), Method::Put, "post/save");
    with_form(client.report_post(form()), Method::Post, "post/report");
    with_form(client.resolve_post_report(form()), Method::Put, "post/report/resolve");
}

#[test]
fn private_message_endpoints_have_their_verbs_and_paths() {
    let client = client();
    with_form(client.create_private_message(form()), Method::Post, "private_message");
    with_form(client.edit_private_message(form()), Method::Put, "private_message");
    with_form(client.delete_private_message(form()), Method::Post, "private_message/delete");
    with_form(client.report_private_message(form()), Method::Post, "private_message/report");
    with_form(client.resolve_private_message_report(form()), Method::Put, "private_message/report/resolve");
}

#[test]
fn report_endpoints_have_their_verbs_and_paths() {
    let client = client();
    with_form(client.list_reports(form()), Method::Get, "report/list");
    with_form(client.report_community(form()), Method::Post, "community/report");
    with_form(client.resolve_community_report(form()), Method::Put, "community/report/resolve");
}

#[test]
fn site_endpoints_have_their_verbs_and_paths() {
    let client = client();
    with_unit(client.get_site(unit()), Method::Get, "site");
    with_form(client.create_site(form()), Method::Post, "site");
    with_form(client.edit_site(form()), Method::Put, "site");
    with_file(client.upload_site_icon(file()), "site/icon", "");
    with_form(client.delete_site_icon(form()), Method::Delete, "site/icon");
    with_file(client.upload_site_banner(file()), "site/banner", "");
    with_form(client.delete_site_banner(form()), Method::Delete, "site/banner");
    with_form(client.get_modlog(form()), Method::Get, "modlog");
    with_form(client.search(form()), Method::Get, "search");
    with_form(client.resolve_object(form()), Method::Get, "resolve_object");
    with_unit(client.get_federated_instances(unit()), Method::Get, "federated_instances");
}

#[test]
fn tag_endpoints_have_their_verbs_and_paths() {
    let client = client();
    with_form(client.create_community_tag(form()), Method::Post, "community/tag");
    with_form(client.update_community_tag(form()), Method::Put, "community/tag");
    with_form(client.delete_community_tag(form()), Method::Delete, "community/tag");
}
