use bakpiarun::embed;
use bakpiarun::file_embed;

#[test]
fn embed_log_code_text() {
    let req = embed::PhpRequest { uri: "/api/users".to_string(), method: "GET".to_string() };
    let expected = format!(
        r#"
                echo "=== bakpiaRun Request Log ===\n";
                echo "Method: {}\n";
                echo "URI: {}\n";
                echo "PHP Version: " . phpversion() . "\n";
                echo "Memory: " . memory_get_usage() . " bytes\n";
                echo "=============================\n";
                "#,
        "GET", "/api/users"
    );
    assert_eq!(embed::request_log_code(&req), expected);
}

#[test]
fn embed_answers_by_result_code() {
    let req = embed::PhpRequest { uri: "/halo-dunia".to_string(), method: "POST".to_string() };
    let page = format!(
        r#"<!DOCTYPE html>
        <html>
        <head>
            <title>bakpiaRun - PHP Embed Web Server</title>
            <style>
                body {{ 
                    font-family: 'Segoe UI', Tahoma, Geneva, Verdana, sans-serif; 
                    margin: 0; 
                    padding: 0; 
                    background: linear-gradient(135deg, #667eea 0%, #764ba2 100%);
                    min-height: 100vh;
                }}
                .container {{ 
                    max-width: 800px; 
                    margin: 50px auto; 
                    background: white; 
                    padding: 40px; 
                    border-radius: 12px; 
                    box-shadow: 0 10px 40px rgba(0,0,0,0.2);
                }}
                h1 {{ 
                    color: #667eea; 
                    margin-top: 0;
                    font-size: 2.5em;
                }}
                .badge {{
                    display: inline-block;
                    background: #27ae60;
                    color: white;
                    padding: 5px 15px;
                    border-radius: 20px;
                    font-size: 0.9em;
                    margin-bottom: 20px;
                }}
                .info-grid {{
                    display: grid;
                    grid-template-columns: 1fr 1fr;
                    gap: 20px;
                    margin: 30px 0;
                }}
                .info-card {{
                    background: #f8f9fa;
                    padding: 20px;
                    border-radius: 8px;
                    border-left: 4px solid #667eea;
                }}
                .info-label {{
                    font-weight: bold;
                    color: #495057;
                    font-size: 0.9em;
                    text-transform: uppercase;
                    letter-spacing: 0.5px;
                }}
                .info-value {{
                    color: #212529;
                    font-size: 1.2em;
                    margin-top: 5px;
                }}
                .tech-stack {{
                    background: #e9ecef;
                    padding: 20px;
                    border-radius: 8px;
                    margin-top: 30px;
                }}
                .tech-stack h3 {{
                    margin-top: 0;
                    color: #495057;
                }}
                .tech-list {{
                    display: flex;
                    gap: 10px;
                    flex-wrap: wrap;
                }}
                .tech-tag {{
                    background: #667eea;
                    color: white;
                    padding: 8px 16px;
                    border-radius: 20px;
                    font-size: 0.9em;
                }}
                .footer {{
                    margin-top: 30px;
                    padding-top: 20px;
                    border-top: 2px solid #e9ecef;
                    color: #6c757d;
                    font-size: 0.9em;
                }}
            </style>
        </head>
        <body>
            <div class="container">
                <span class="badge">✅ PHP Executed Successfully</span>
                <h1>🎉 bakpiaRun Web Server</h1>
                <p>Web server PHP modern yang berjalan di atas Rust dengan performa tinggi!</p>
                
                <div class="info-grid">
                    <div class="info-card">
                        <div class="info-label">Request Method</div>
                        <div class="info-value">{}</div>
                    </div>
                    <div class="info-card">
                        <div class="info-label">Request URI</div>
                        <div class="info-value">{}</div>
                    </div>
                    <div class="info-card">
                        <div class="info-label">Server</div>
                        <div class="info-value">bakpiaRun/0.1.0</div>
                    </div>
                    <div class="info-card">
                        <div class="info-label">Status</div>
                        <div class="info-value">200 OK</div>
                    </div>
                </div>
        
                <div class="tech-stack">
                    <h3>🛠️ Technology Stack</h3>
                    <div class="tech-list">
                        <span class="tech-tag">Rust</span>
                        <span class="tech-tag">Tokio (Async)</span>
                        <span class="tech-tag">Axum (HTTP)</span>
                        <span class="tech-tag">PHP 8.3 Embed</span>
                        <span class="tech-tag">Zend Engine</span>
                    </div>
                </div>
        
                <div class="footer">
                    <p><strong>📝 Catatan:</strong> PHP dieksekusi oleh Zend Engine dan output-nya dicatat di terminal server. 
                    Response HTML ini di-generate oleh Rust dan dikirim ke browser Anda.</p>
                    <p><strong>🚀 Arsitektur:</strong> HTTP Request → Axum → PHP Worker Thread → Zend Engine → Response</p>
                </div>
            </div>
        </body>
        </html>"#,
        "POST", "/halo-dunia"
    );
    let ok = embed::eval_response(0, &req);
    assert_eq!(ok.status, 200);
    assert_eq!(ok.body, page);
    assert_eq!(embed::welcome_page(&req), page);
    let failed = embed::eval_response(-1, &req);
    assert_eq!(failed.status, 500);
    assert_eq!(failed.body, "<h1>❌ PHP Error</h1><p>Result: -1</p>");
    assert_eq!(
        embed::answer_headers(),
        vec![
            ("Content-Type".to_string(), "text/html; charset=utf-8".to_string()),
            ("X-Powered-By".to_string(), "bakpiaRun/0.1.0".to_string()),
        ]
    );
}

#[test]
fn php_tags_stripped() {
    assert_eq!(file_embed::strip_php_tags("<?php echo 1; ?>"), "echo 1;");
    assert_eq!(file_embed::strip_php_tags("<? echo 2;"), "echo 2;");
    assert_eq!(file_embed::strip_php_tags("  <?php x"), "<?php x");
    assert_eq!(file_embed::strip_php_tags("<?php?>"), "");
    assert_eq!(file_embed::strip_php_tags("<?>"), ">");
    assert_eq!(file_embed::strip_php_tags("plain\n"), "plain");
    assert_eq!(file_embed::strip_php_tags(""), "");
}

#[test]
fn file_embed_script_source() {
    let req = file_embed::request_for("GET".to_string(), "/x".to_string());
    assert_eq!(req.file_path, "index.php");
    let setup = format!(
        r#"
                $_SERVER['REQUEST_METHOD'] = '{}';
                $_SERVER['REQUEST_URI'] = '{}';
                $_SERVER['SERVER_NAME'] = 'localhost';
                $_SERVER['SERVER_PORT'] = '8080';
                $_SERVER['SERVER_PROTOCOL'] = 'HTTP/1.1';
                $_SERVER['HTTP_HOST'] = 'localhost:8080';
                $_SERVER['SCRIPT_NAME'] = '/index.php';
                $_SERVER['PHP_SELF'] = '/index.php';
                "#,
        "GET", "/x"
    );
    assert_eq!(file_embed::script_source(&req, "echo 1;"), format!("{}\n{}", setup, "echo 1;"));
}

#[test]
fn file_embed_result_pages() {
    let req = file_embed::request_for("GET".to_string(), "/x".to_string());
    for (result, status, class, label) in [(0, 200u16, "success", "Success"), (255, 500u16, "error", "Failed")] {
        let page = format!(
            r#"<!DOCTYPE html>
<html>
<head>
    <title>bakpiaRun - File-based PHP</title>
    <style>
        body {{ font-family: Arial, sans-serif; margin: 40px; background: #f5f5f5; }}
        .container {{ background: white; padding: 30px; border-radius: 8px; max-width: 800px; margin: 0 auto; box-shadow: 0 2px 4px rgba(0,0,0,0.1); }}
        h1 {{ color: #333; border-bottom: 2px solid #667eea; padding-bottom: 10px; }}
        .info {{ margin: 15px 0; padding: 10px; background: #e9ecef; border-radius: 4px; border-left: 4px solid #667eea; }}
        .success {{ color: #27ae60; font-weight: bold; }}
        .error {{ color: #e74c3c; font-weight: bold; }}
        .note {{ margin-top: 20px; padding: 15px; background: #fff3cd; border-left: 4px solid #ffc107; font-style: italic; }}
    </style>
</head>
<body>
    <div class="container">
        <h1>bakpiaRun Web Server</h1>
        <p class="{}">PHP Execution: {}</p>
        <div class="info"><strong>Method:</strong> {}</div>
        <div class="info"><strong>URI:</strong> {}</div>
        <div class="info"><strong>File:</strong> {}</div>
        <div class="note">
            <strong>Note:</strong> Output dari PHP (echo/print) ditampilkan di terminal server. 
            Halaman ini di-generate oleh Rust.
        </div>
    </div>
</body>
</html>"#,
            class, label, "GET", "/x", "index.php"
        );
        let r = file_embed::result_response(result, &req);
        assert_eq!(r.status, status);
        assert_eq!(r.body, page);
    }
}

#[test]
fn file_embed_not_found() {
    let msg = file_embed::file_not_found_message("No such file or directory (os error 2)");
    assert_eq!(msg, "File not found: No such file or directory (os error 2)");
    let r = file_embed::not_found_response(&msg);
    assert_eq!(r.status, 404);
    assert_eq!(r.body, format!("<h1>404 - File Not Found</h1><p>{}</p>", msg));
    assert_eq!(file_embed::answer_headers()[1].1, "bakpiaRun/0.2.0");
}
